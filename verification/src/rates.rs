//! The rate table of one upstream answer: currency codes, each with its rate.
//!
//! A rate is carried as the bit pattern of a 32-bit IEEE 754 number, so that
//! the table can be compared and reasoned about exactly.
use vstd::prelude::*;

verus! {

/// One line of the table: a currency code and the bits of its rate.
#[derive(Clone, Debug, PartialEq, Eq)]
pub struct RateEntry {
    pub code: String,
    pub bits: u32,
}

/// `entries[i]` is the line of `code`.
pub open spec fn is_line_of(entries: Seq<RateEntry>, code: Seq<char>, i: int) -> bool {
    0 <= i < entries.len() && entries[i].code@ == code
}

/// No code has two lines.
pub open spec fn codes_unique(entries: Seq<RateEntry>) -> bool {
    forall|i: int, j: int|
        0 <= i < j < entries.len() ==> (#[trigger] entries[i]).code@ != (#[trigger] entries[j]).code@
}

/// The table that the lines spell: each code that has a line, with its rate.
pub open spec fn table_of(entries: Seq<RateEntry>) -> Map<Seq<char>, u32> {
    Map::new(
        |code: Seq<char>| exists|i: int| is_line_of(entries, code, i),
        |code: Seq<char>| entries[choose|i: int| is_line_of(entries, code, i)].bits,
    )
}

/// The place of a code's line is the place that the table reads.
pub proof fn lemma_line_gives_rate(entries: Seq<RateEntry>, code: Seq<char>, i: int)
    requires
        codes_unique(entries),
        is_line_of(entries, code, i),
    ensures
        table_of(entries).dom().contains(code),
        table_of(entries)[code] == entries[i].bits,
{
    let j = choose|j: int| is_line_of(entries, code, j);
    assert(is_line_of(entries, code, j));
    if j < i {
        assert(entries[j].code@ != entries[i].code@);
    } else if i < j {
        assert(entries[i].code@ != entries[j].code@);
    }
}

/// A rate table: case-sensitive currency codes, each at most once, with the
/// rate of each.
#[derive(Clone, Debug)]
pub struct Rate {
    conversion_rates: Vec<RateEntry>,
}

impl Rate {
    /// The lines of the table, in the order in which their codes first came.
    pub closed spec fn lines(&self) -> Seq<RateEntry> {
        self.conversion_rates@
    }

    /// The invariant of the type: no code has two lines.
    pub open spec fn wf(&self) -> bool {
        codes_unique(self.lines())
    }

    /// The table as a map from code to rate bits.
    pub open spec fn view(&self) -> Map<Seq<char>, u32> {
        table_of(self.lines())
    }

    /// The empty table.
    pub fn new() -> (table: Rate)
        ensures
            table.wf(),
            table@ == Map::<Seq<char>, u32>::empty(),
            table.lines().len() == 0,
    {
        let table = Rate { conversion_rates: Vec::new() };
        assert(table@ =~= Map::<Seq<char>, u32>::empty());
        table
    }

    /// The number of codes in the table.
    pub fn len(&self) -> (n: usize)
        ensures
            n == self.lines().len(),
    {
        self.conversion_rates.len()
    }

    /// The lines of the table, for reading them out one by one.
    pub fn entries(&self) -> (lines: &Vec<RateEntry>)
        ensures
            lines@ == self.lines(),
    {
        &self.conversion_rates
    }

    /// Where the line of `code` stands, if it has one.
    fn position(&self, code: &String) -> (found: Option<usize>)
        ensures
            match found {
                Some(i) => is_line_of(self.lines(), code@, i as int),
                None => forall|i: int| !is_line_of(self.lines(), code@, i),
            },
    {
        let mut i: usize = 0;
        while i < self.conversion_rates.len()
            invariant
                i <= self.conversion_rates@.len(),
                forall|k: int| 0 <= k < i ==> self.conversion_rates@[k].code@ != code@,
            decreases self.conversion_rates@.len() - i,
        {
            if self.conversion_rates[i].code == *code {
                return Some(i);
            }
            i = i + 1;
        }
        None
    }

    /// The rate of `code`: `Some` exactly when the table has the code.
    pub fn get(&self, code: &String) -> (rate: Option<u32>)
        requires
            self.wf(),
        ensures
            rate == (if self@.dom().contains(code@) {
                Some(self@[code@])
            } else {
                None
            }),
    {
        match self.position(code) {
            Some(i) => {
                proof {
                    lemma_line_gives_rate(self.lines(), code@, i as int);
                }
                Some(self.conversion_rates[i].bits)
            },
            None => None,
        }
    }

    /// Whether the table has `code`.
    pub fn contains(&self, code: &String) -> (has: bool)
        ensures
            has == self@.dom().contains(code@),
    {
        self.position(code).is_some()
    }

    /// Sets the rate of `code`, replacing the rate it had. Every other code
    /// keeps its rate.
    pub fn insert(&mut self, code: String, bits: u32)
        requires
            old(self).wf(),
        ensures
            final(self).wf(),
            final(self)@ == old(self)@.insert(code@, bits),
            final(self).lines().len() == old(self).lines().len() + (if old(self)@.dom().contains(
                code@,
            ) {
                0int
            } else {
                1int
            }),
    {
        let ghost before = self.lines();
        let ghost key = code@;
        match self.position(&code) {
            Some(i) => {
                self.conversion_rates.set(i, RateEntry { code, bits });
                proof {
                    let after = self.lines();
                    assert forall|a: int, b: int| 0 <= a < b < after.len() implies (
                    #[trigger] after[a]).code@ != (#[trigger] after[b]).code@ by {
                        assert(before[a].code@ != before[b].code@);
                    }
                    assert forall|c: Seq<char>|
                        table_of(after).dom().contains(c) <==> #[trigger] table_of(
                            before,
                        ).insert(key, bits).dom().contains(c) by {
                        if table_of(after).dom().contains(c) {
                            let k = choose|k: int| is_line_of(after, c, k);
                            assert(is_line_of(before, c, k));
                        }
                        if table_of(before).insert(key, bits).dom().contains(c) {
                            if c == key {
                                assert(is_line_of(after, c, i as int));
                            } else {
                                let k = choose|k: int| is_line_of(before, c, k);
                                assert(is_line_of(after, c, k));
                            }
                        }
                    }
                    assert forall|c: Seq<char>| #[trigger]
                        table_of(after).dom().contains(c) implies table_of(after)[c] == table_of(
                        before,
                    ).insert(key, bits)[c] by {
                        let k = choose|k: int| is_line_of(after, c, k);
                        lemma_line_gives_rate(after, c, k);
                        if c != key {
                            assert(is_line_of(before, c, k));
                            lemma_line_gives_rate(before, c, k);
                        } else {
                            lemma_line_gives_rate(after, c, i as int);
                        }
                    }
                    assert(table_of(after) =~= table_of(before).insert(key, bits));
                    assert(is_line_of(before, key, i as int));
                }
            },
            None => {
                self.conversion_rates.push(RateEntry { code, bits });
                proof {
                    let after = self.lines();
                    let last = before.len() as int;
                    assert forall|a: int, b: int| 0 <= a < b < after.len() implies (
                    #[trigger] after[a]).code@ != (#[trigger] after[b]).code@ by {
                        if b < last {
                            assert(before[a].code@ != before[b].code@);
                        } else {
                            assert(!is_line_of(before, key, a));
                        }
                    }
                    assert forall|c: Seq<char>|
                        table_of(after).dom().contains(c) <==> #[trigger] table_of(
                            before,
                        ).insert(key, bits).dom().contains(c) by {
                        if table_of(after).dom().contains(c) {
                            let k = choose|k: int| is_line_of(after, c, k);
                            if k < last {
                                assert(is_line_of(before, c, k));
                            }
                        }
                        if table_of(before).insert(key, bits).dom().contains(c) {
                            if c == key {
                                assert(is_line_of(after, c, last));
                            } else {
                                let k = choose|k: int| is_line_of(before, c, k);
                                assert(is_line_of(after, c, k));
                            }
                        }
                    }
                    assert forall|c: Seq<char>| #[trigger]
                        table_of(after).dom().contains(c) implies table_of(after)[c] == table_of(
                        before,
                    ).insert(key, bits)[c] by {
                        let k = choose|k: int| is_line_of(after, c, k);
                        lemma_line_gives_rate(after, c, k);
                        if c != key {
                            assert(is_line_of(before, c, k));
                            lemma_line_gives_rate(before, c, k);
                        } else {
                            lemma_line_gives_rate(after, c, last);
                        }
                    }
                    assert(table_of(after) =~= table_of(before).insert(key, bits));
                    assert(!table_of(before).dom().contains(key)) by {
                        if table_of(before).dom().contains(key) {
                            let k = choose|k: int| is_line_of(before, key, k);
                            assert(is_line_of(before, key, k));
                        }
                    }
                }
            },
        }
    }
}

} // verus!
