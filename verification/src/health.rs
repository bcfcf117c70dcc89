//! The synthetic health toggler: a tick counter whose parity is the status
//! that the health surface reports for the conversion service.
use vstd::prelude::*;

verus! {

/// What the health surface reports for the conversion service.
#[derive(Clone, Copy, Debug, PartialEq, Eq, Structural)]
pub enum ServingStatus {
    Serving,
    NotServing,
}

/// The other status.
pub open spec fn flipped(status: ServingStatus) -> ServingStatus {
    match status {
        ServingStatus::Serving => ServingStatus::NotServing,
        ServingStatus::NotServing => ServingStatus::Serving,
    }
}

/// The status that belongs to a tick count: an even count serves.
pub open spec fn status_at(ticks: nat) -> ServingStatus {
    if ticks % 2 == 0 {
        ServingStatus::Serving
    } else {
        ServingStatus::NotServing
    }
}

/// The counter after one more tick. It wraps at the top of `u64`, which keeps
/// the alternation: the largest count is odd and zero is even.
pub open spec fn next_count(count: u64) -> u64 {
    if count == u64::MAX {
        0
    } else {
        (count + 1) as u64
    }
}

/// The counter after `intervals` ticks, counted from startup.
pub open spec fn count_after(intervals: nat) -> u64
    decreases intervals,
{
    if intervals == 0 {
        0
    } else {
        next_count(count_after((intervals - 1) as nat))
    }
}

/// The tick counter behind the reported status. One task owns it; the status
/// is a function of the count alone, never of the status reported before.
#[derive(Clone, Copy, Debug)]
pub struct HealthToggler {
    ticks: u64,
}

impl HealthToggler {
    /// The number of ticks counted so far.
    pub closed spec fn count(&self) -> u64 {
        self.ticks
    }

    /// The status this toggler reports.
    pub open spec fn reported(&self) -> ServingStatus {
        status_at(self.count() as nat)
    }

    /// The toggler at startup: no tick yet, so the service is serving.
    pub fn new() -> (toggler: HealthToggler)
        ensures
            toggler.count() == 0,
            toggler.reported() == ServingStatus::Serving,
    {
        HealthToggler { ticks: 0 }
    }

    /// A toggler that has already counted `ticks` ticks.
    pub fn from_count(ticks: u64) -> (toggler: HealthToggler)
        ensures
            toggler.count() == ticks,
    {
        HealthToggler { ticks }
    }

    /// The number of ticks counted so far.
    pub fn ticks(&self) -> (count: u64)
        ensures
            count == self.count(),
    {
        self.ticks
    }

    /// The status to report now.
    pub fn status(&self) -> (status: ServingStatus)
        ensures
            status == self.reported(),
    {
        if self.ticks % 2 == 0 {
            ServingStatus::Serving
        } else {
            ServingStatus::NotServing
        }
    }

    /// Counts one elapsed interval and returns the status to report for it,
    /// which is the opposite of the one reported before.
    pub fn tick(&mut self) -> (status: ServingStatus)
        ensures
            final(self).count() == next_count(old(self).count()),
            status == final(self).reported(),
            status == flipped(old(self).reported()),
    {
        if self.ticks == u64::MAX {
            self.ticks = 0;
        } else {
            self.ticks = self.ticks + 1;
        }
        self.status()
    }
}

/// One tick always flips the status, also where the counter wraps.
pub proof fn lemma_tick_flips(count: u64)
    ensures
        status_at(next_count(count) as nat) == flipped(status_at(count as nat)),
{
}

/// After any number of intervals the status is the one of that number's
/// parity: serving at startup and after every even number of intervals, not
/// serving after every odd number.
pub proof fn lemma_status_alternates(intervals: nat)
    ensures
        status_at(count_after(intervals) as nat) == status_at(intervals),
        status_at(count_after(intervals + 1) as nat) == flipped(
            status_at(count_after(intervals) as nat),
        ),
    decreases intervals,
{
    lemma_tick_flips(count_after(intervals));
    if intervals > 0 {
        lemma_status_alternates((intervals - 1) as nat);
        lemma_tick_flips(count_after((intervals - 1) as nat));
    }
}

} // verus!
