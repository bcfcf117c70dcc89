//! The conversion handler: which base a request means, which upstream URL
//! serves it, and what the caller gets for each outcome of the fetch.
use vstd::prelude::*;
use vstd::string::StringExecFns;
use crate::rates::Rate;

verus! {

/// A conversion request: the wanted symbol and the base to express it in.
/// An empty base stands for the handler's default base.
#[derive(Clone, Debug, PartialEq, Eq)]
pub struct CurrencyRequest {
    pub symbol: String,
    pub base: String,
}

/// A conversion response. `value` holds the bits of the 32-bit rate.
#[derive(Clone, Debug, PartialEq, Eq)]
pub struct CurrencyResponse {
    pub to: String,
    pub base: String,
    pub value: u32,
}

/// Why a fetch of the rate table gave no table.
#[derive(Clone, Copy, Debug, PartialEq, Eq, Structural)]
pub enum FetchError {
    /// The upstream could not be reached or did not answer.
    Transport,
    /// The upstream's answer was not a rate table.
    Decode,
}

/// What a caller sees in place of a response.
#[derive(Clone, Copy, Debug, PartialEq, Eq, Structural)]
pub enum ConvertError {
    /// The fetch failed. The cause is kept from the caller.
    Internal,
    /// The upstream's table does not hold the requested symbol.
    UnknownSymbol,
}

/// What to fetch for a request: the base it resolved to and the URL to get.
#[derive(Clone, Debug, PartialEq, Eq)]
pub struct FetchPlan {
    pub base: String,
    pub url: String,
}

/// The base that a request means: its own, or the default where it names none.
pub open spec fn resolved_base(default_base: Seq<char>, requested: Seq<char>) -> Seq<char> {
    if requested.len() == 0 {
        default_base
    } else {
        requested
    }
}

/// The upstream URL for a base: the upstream's address, the token as a path
/// segment where one is configured, then `latest` and the base.
pub open spec fn upstream_url(url: Seq<char>, token: Seq<char>, base: Seq<char>) -> Seq<char> {
    if token.len() == 0 {
        url + "/latest/"@ + base
    } else {
        url + "/"@ + token + "/latest/"@ + base
    }
}

/// The status code that the remote-call protocol gives each error.
pub open spec fn status_code_of(error: ConvertError) -> u32 {
    match error {
        ConvertError::Internal => 13,
        ConvertError::UnknownSymbol => 3,
    }
}

/// What a caller gets for a request, given the resolved base and what the
/// fetch brought.
pub open spec fn conversion_of(
    symbol: Seq<char>,
    base: Seq<char>,
    fetched: Result<Map<Seq<char>, u32>, FetchError>,
) -> Result<(Seq<char>, Seq<char>, u32), ConvertError> {
    match fetched {
        Err(_) => Err(ConvertError::Internal),
        Ok(table) => if table.dom().contains(symbol) {
            Ok((symbol, base, table[symbol]))
        } else {
            Err(ConvertError::UnknownSymbol)
        },
    }
}

impl ConvertError {
    /// The numeric status code of the remote-call protocol for this error:
    /// 13, internal, or 3, invalid argument.
    pub fn code(&self) -> (code: u32)
        ensures
            code == status_code_of(*self),
    {
        match self {
            ConvertError::Internal => 13,
            ConvertError::UnknownSymbol => 3,
        }
    }

    /// The text that goes to the caller. It never carries the cause of a
    /// failed fetch.
    pub fn message(&self) -> (text: String)
        ensures
            text@ == (match *self {
                ConvertError::Internal => "Internal error"@,
                ConvertError::UnknownSymbol => "Invalid symbol"@,
            }),
    {
        match self {
            ConvertError::Internal => "Internal error".to_owned(),
            ConvertError::UnknownSymbol => "Invalid symbol".to_owned(),
        }
    }
}

impl CurrencyResponse {
    /// The response as the triple of its symbol, its base and its rate bits.
    pub open spec fn view(&self) -> (Seq<char>, Seq<char>, u32) {
        (self.to@, self.base@, self.value)
    }
}

/// The conversion handler's configuration, fixed once the process has
/// started.
#[derive(Clone, Debug)]
pub struct CurrencyService {
    url: String,
    token: String,
    base: String,
}

impl CurrencyService {
    /// The upstream's address.
    pub closed spec fn url_view(&self) -> Seq<char> {
        self.url@
    }

    /// The access token; empty where none is configured.
    pub closed spec fn token_view(&self) -> Seq<char> {
        self.token@
    }

    /// The default base.
    pub closed spec fn base_view(&self) -> Seq<char> {
        self.base@
    }

    /// The base that this handler uses for a requested base.
    pub open spec fn base_for(&self, requested: Seq<char>) -> Seq<char> {
        resolved_base(self.base_view(), requested)
    }

    /// The URL that this handler fetches for a requested base.
    pub open spec fn url_for(&self, requested: Seq<char>) -> Seq<char> {
        upstream_url(self.url_view(), self.token_view(), self.base_for(requested))
    }

    /// A handler with all three settings given.
    pub fn new(url: String, token: String, base: String) -> (service: CurrencyService)
        ensures
            service.url_view() == url@,
            service.token_view() == token@,
            service.base_view() == base@,
    {
        CurrencyService { url, token, base }
    }

    /// The upstream's address.
    pub fn url(&self) -> (url: &str)
        ensures
            url@ == self.url_view(),
    {
        self.url.as_str()
    }

    /// The access token; empty where none is configured.
    pub fn token(&self) -> (token: &str)
        ensures
            token@ == self.token_view(),
    {
        self.token.as_str()
    }

    /// The default base.
    pub fn base(&self) -> (base: &str)
        ensures
            base@ == self.base_view(),
    {
        self.base.as_str()
    }

    /// The base that a request means: the requested one as it stands, or the
    /// default base where the request leaves it empty.
    pub fn resolve_base(&self, requested: &str) -> (base: String)
        ensures
            base@ == self.base_for(requested@),
            requested@.len() > 0 ==> base@ == requested@,
            requested@.len() == 0 ==> base@ == self.base_view(),
    {
        if requested.is_empty() {
            self.base.clone()
        } else {
            requested.to_owned()
        }
    }

    /// The URL to get for a base that is already resolved.
    pub fn request_url(&self, base: &str) -> (url: String)
        ensures
            url@ == upstream_url(self.url_view(), self.token_view(), base@),
    {
        let mut url: String = self.url.clone();
        if !self.token.as_str().is_empty() {
            url.append("/");
            url.append(self.token.as_str());
        }
        url.append("/latest/");
        url.append(base);
        url
    }

    /// The first half of a conversion: the one fetch that the request needs.
    /// A plan is owed for every request; nothing is kept from earlier ones.
    pub fn plan_fetch(&self, request: &CurrencyRequest) -> (plan: FetchPlan)
        ensures
            plan.base@ == self.base_for(request.base@),
            plan.url@ == self.url_for(request.base@),
    {
        let base = self.resolve_base(request.base.as_str());
        let url = self.request_url(base.as_str());
        FetchPlan { base, url }
    }

    /// The second half of a conversion: the answer for the request, given what
    /// the fetch brought. A failed fetch gives the internal error, a table
    /// without the symbol the unknown-symbol error, and a table with it the
    /// response that echoes the symbol and the resolved base.
    pub fn convert(&self, request: &CurrencyRequest, fetched: Result<Rate, FetchError>) -> (answer:
        Result<CurrencyResponse, ConvertError>)
        requires
            fetched matches Ok(table) ==> table.wf(),
        ensures
            (match answer {
                Ok(response) => Ok(response@),
                Err(error) => Err(error),
            }) == conversion_of(
                request.symbol@,
                self.base_for(request.base@),
                match fetched {
                    Ok(table) => Ok(table@),
                    Err(error) => Err(error),
                },
            ),
    {
        match fetched {
            Err(_) => Err(ConvertError::Internal),
            Ok(table) => match table.get(&request.symbol) {
                Some(value) => Ok(
                    CurrencyResponse {
                        to: request.symbol.clone(),
                        base: self.resolve_base(request.base.as_str()),
                        value,
                    },
                ),
                None => Err(ConvertError::UnknownSymbol),
            },
        }
    }
}

impl Default for CurrencyService {
    /// The handler with nothing configured: every setting empty.
    fn default() -> (service: CurrencyService)
        ensures
            service.url_view().len() == 0,
            service.token_view().len() == 0,
            service.base_view().len() == 0,
    {
        CurrencyService { url: String::new(), token: String::new(), base: String::new() }
    }
}

/// A request that names a base is served in that base, in the URL and in the
/// response alike, whatever the default is.
pub proof fn lemma_named_base_is_kept(
    service: CurrencyService,
    symbol: Seq<char>,
    requested: Seq<char>,
    table: Map<Seq<char>, u32>,
)
    requires
        requested.len() > 0,
    ensures
        service.base_for(requested) == requested,
        service.url_for(requested) == upstream_url(
            service.url_view(),
            service.token_view(),
            requested,
        ),
        conversion_of(symbol, service.base_for(requested), Ok(table)) matches Ok(response)
            ==> response.1 == requested,
{
}

/// A request that names no base is served in the default base, in the URL and
/// in the response alike.
pub proof fn lemma_empty_base_is_default(
    service: CurrencyService,
    symbol: Seq<char>,
    requested: Seq<char>,
    table: Map<Seq<char>, u32>,
)
    requires
        requested.len() == 0,
    ensures
        service.base_for(requested) == service.base_view(),
        service.url_for(requested) == upstream_url(
            service.url_view(),
            service.token_view(),
            service.base_view(),
        ),
        conversion_of(symbol, service.base_for(requested), Ok(table)) matches Ok(response)
            ==> response.1 == service.base_view(),
{
}

/// Whatever made the fetch fail, the caller gets the internal error and no
/// response.
pub proof fn lemma_failed_fetch_is_internal(symbol: Seq<char>, base: Seq<char>, cause: FetchError)
    ensures
        conversion_of(symbol, base, Err(cause)) == Err::<(Seq<char>, Seq<char>, u32), ConvertError>(
            ConvertError::Internal,
        ),
{
}

/// Without a token the URL has no token segment: the address is followed
/// directly by `/latest/` and the base.
pub proof fn lemma_no_token_no_segment(url: Seq<char>, base: Seq<char>)
    ensures
        upstream_url(url, Seq::<char>::empty(), base) == url + "/latest/"@ + base,
{
}

} // verus!
