//! Auxiliary types used by [`Opts`][crate::opts::Opts] and by the fetcher.
//!
//! This holds the bounded durations [`LastChecked`] and [`TimeToConnect`], the answer of the API
//! as [`NaiveResponse`], and the vocabulary of the filters: [`Country`], [`Countries`],
//! [`Level`] and [`Protocol`]. Durations are whole seconds.

use vstd::prelude::*;

use crate::errors::ParamError;

verus! {

/// A value checked against inclusive bounds.
#[derive(Clone, Copy, Debug, PartialEq, Eq)]
pub struct BoundedVal {
    pub val: u64,
}

/// What checking `val` against `bounds` gives.
pub open spec fn bounded(val: u64, bounds: (u64, u64)) -> Result<BoundedVal, ParamError<u64>> {
    if bounds.0 <= val <= bounds.1 {
        Ok(BoundedVal { val })
    } else {
        Err(ParamError::OutOfBounds { bounds, value: val })
    }
}

impl BoundedVal {
    pub fn new(val: u64, bounds: (u64, u64)) -> (r: Result<BoundedVal, ParamError<u64>>)
        requires
            bounds.0 <= bounds.1,
        ensures
            r == bounded(val, bounds),
    {
        if val >= bounds.0 && val <= bounds.1 {
            Ok(BoundedVal { val })
        } else {
            Err(ParamError::out_of_bounds(val, bounds))
        }
    }
}

/// One minute to an hour, in seconds.
pub const LAST_CHECKED_MIN: u64 = 60;

pub const LAST_CHECKED_MAX: u64 = 3600;

/// One second to a minute, in seconds.
pub const TIME_TO_CONNECT_MIN: u64 = 1;

pub const TIME_TO_CONNECT_MAX: u64 = 60;

/// How long ago the proxies were last checked, in seconds, from one minute to an hour.
#[derive(Clone, Debug, PartialEq, Eq)]
pub struct LastChecked {
    inner: BoundedVal,
}

impl View for LastChecked {
    type V = u64;

    closed spec fn view(&self) -> u64 {
        self.inner.val
    }
}

impl LastChecked {
    pub const BOUNDS: (u64, u64) = (LAST_CHECKED_MIN, LAST_CHECKED_MAX);

    pub fn new(val: u64) -> (r: Result<Self, ParamError<u64>>)
        ensures
            LAST_CHECKED_MIN <= val <= LAST_CHECKED_MAX ==> (r matches Ok(v) && v@ == val),
            !(LAST_CHECKED_MIN <= val <= LAST_CHECKED_MAX) ==> r == Err::<Self, ParamError<u64>>(
                ParamError::OutOfBounds { bounds: (LAST_CHECKED_MIN, LAST_CHECKED_MAX), value: val },
            ),
    {
        match BoundedVal::new(val, Self::BOUNDS) {
            Ok(inner) => Ok(LastChecked { inner }),
            Err(e) => Err(e),
        }
    }

    /// Same as [`LastChecked::new`].
    pub fn try_from(val: u64) -> (r: Result<Self, ParamError<u64>>)
        ensures
            LAST_CHECKED_MIN <= val <= LAST_CHECKED_MAX ==> (r matches Ok(v) && v@ == val),
            !(LAST_CHECKED_MIN <= val <= LAST_CHECKED_MAX) ==> r == Err::<Self, ParamError<u64>>(
                ParamError::OutOfBounds { bounds: (LAST_CHECKED_MIN, LAST_CHECKED_MAX), value: val },
            ),
    {
        Self::new(val)
    }

    pub fn value(&self) -> (r: u64)
        ensures
            r == self@,
    {
        self.inner.val
    }
}

/// How long connecting to the proxy took when it was tested, in seconds, from one second to a
/// minute.
#[derive(Clone, Debug, PartialEq, Eq)]
pub struct TimeToConnect {
    inner: BoundedVal,
}

impl View for TimeToConnect {
    type V = u64;

    closed spec fn view(&self) -> u64 {
        self.inner.val
    }
}

impl TimeToConnect {
    pub const BOUNDS: (u64, u64) = (TIME_TO_CONNECT_MIN, TIME_TO_CONNECT_MAX);

    pub fn new(val: u64) -> (r: Result<Self, ParamError<u64>>)
        ensures
            TIME_TO_CONNECT_MIN <= val <= TIME_TO_CONNECT_MAX ==> (r matches Ok(v) && v@ == val),
            !(TIME_TO_CONNECT_MIN <= val <= TIME_TO_CONNECT_MAX) ==> r == Err::<
                Self,
                ParamError<u64>,
            >(
                ParamError::OutOfBounds {
                    bounds: (TIME_TO_CONNECT_MIN, TIME_TO_CONNECT_MAX),
                    value: val,
                },
            ),
    {
        match BoundedVal::new(val, Self::BOUNDS) {
            Ok(inner) => Ok(TimeToConnect { inner }),
            Err(e) => Err(e),
        }
    }

    /// Same as [`TimeToConnect::new`].
    pub fn try_from(val: u64) -> (r: Result<Self, ParamError<u64>>)
        ensures
            TIME_TO_CONNECT_MIN <= val <= TIME_TO_CONNECT_MAX ==> (r matches Ok(v) && v@ == val),
            !(TIME_TO_CONNECT_MIN <= val <= TIME_TO_CONNECT_MAX) ==> r == Err::<
                Self,
                ParamError<u64>,
            >(
                ParamError::OutOfBounds {
                    bounds: (TIME_TO_CONNECT_MIN, TIME_TO_CONNECT_MAX),
                    value: val,
                },
            ),
    {
        Self::new(val)
    }

    pub fn value(&self) -> (r: u64)
        ensures
            r == self@,
    {
        self.inner.val
    }
}

/// The status and body of one answer of the API.
pub struct NaiveResponse {
    pub status: u16,
    pub text: String,
}

impl NaiveResponse {
    pub fn new(status: u16, text: String) -> (r: Self)
        ensures
            r.status == status,
            r.text == text,
    {
        NaiveResponse { status, text }
    }

    pub open spec fn is_ok(&self) -> bool {
        200 <= self.status < 300
    }

    /// Whether the status is a success.
    pub fn ok(&self) -> (r: bool)
        ensures
            r == self.is_ok(),
    {
        200 <= self.status && self.status < 300
    }
}

/// Whether iso_country knows `code` as a country code.
pub uninterp spec fn is_iso_code(code: Seq<char>) -> bool;

/// Relies on iso_country's `FromStr` for `Country`, which looks the code up, as written, in its
/// table of ISO 3166-1 alpha-2 codes; the empty code is its `Unspecified`.
#[verifier::external_body]
fn iso_code_known(code: &str) -> (r: bool)
    ensures
        r == is_iso_code(code@),
{
    code.parse::<iso_country::Country>().is_ok()
}

/// A country that the API knows, held as its ISO 3166-1 alpha-2 code.
///
/// There is no unspecified country: a code that does not resolve gives no `Country`.
#[derive(Debug, PartialEq, Eq)]
pub struct Country {
    code: String,
}

pub open spec fn is_country_code(code: Seq<char>) -> bool {
    code.len() > 0 && is_iso_code(code)
}

impl View for Country {
    type V = Seq<char>;

    closed spec fn view(&self) -> Seq<char> {
        self.code@
    }
}

impl Country {
    /// The code is a known, non-empty one.
    #[verifier::type_invariant]
    spec fn known_code(self) -> bool {
        is_country_code(self.code@)
    }

    /// The country with the code `code`, if it is a known one.
    pub fn from_code(code: &str) -> (r: Option<Country>)
        ensures
            r is Some <==> is_country_code(code@),
            r matches Some(c) ==> c@ == code@,
    {
        if code.is_empty() {
            None
        } else if iso_code_known(code) {
            Some(Country { code: String::from_str(code) })
        } else {
            None
        }
    }

    /// A copy of this country.
    pub fn duplicate(&self) -> (r: Country)
        ensures
            r@ == self@,
    {
        proof {
            use_type_invariant(self);
        }
        Country { code: self.code.clone() }
    }

    /// The two-letter code, a known and non-empty one.
    pub fn code(&self) -> (r: String)
        ensures
            r@ == self@,
            is_country_code(r@),
    {
        proof {
            use_type_invariant(self);
        }
        self.code.clone()
    }
}

impl Clone for Country {
    fn clone(&self) -> (r: Country) {
        self.duplicate()
    }
}

/// Either an allowlist or a blocklist of countries, as a comma-separated list of codes.
#[derive(Clone, Debug, PartialEq, Eq)]
pub enum Countries {
    AllowList(String),
    BlockList(String),
}

/// The list `list` with one more code at its end.
pub open spec fn joined(list: Seq<char>, code: Seq<char>) -> Seq<char> {
    if list.len() == 0 {
        code
    } else {
        list + seq![','] + code
    }
}

/// The list `list` with the codes of `countries` added in order.
pub open spec fn joined_all(list: Seq<char>, countries: Seq<Country>) -> Seq<char>
    decreases countries.len(),
{
    if countries.len() == 0 {
        list
    } else {
        joined(joined_all(list, countries.drop_last()), countries.last()@)
    }
}

impl Countries {
    pub open spec fn is_allow(&self) -> bool {
        self is AllowList
    }

    /// The comma-separated codes.
    pub open spec fn list(&self) -> Seq<char> {
        match self {
            Countries::AllowList(l) => l@,
            Countries::BlockList(l) => l@,
        }
    }

    pub fn allow() -> (r: Self)
        ensures
            r.is_allow(),
            r.list().len() == 0,
    {
        Countries::AllowList(String::new())
    }

    pub fn block() -> (r: Self)
        ensures
            !r.is_allow(),
            r.list().len() == 0,
    {
        Countries::BlockList(String::new())
    }

    pub fn is_empty(&self) -> (r: bool)
        ensures
            r == (self.list().len() == 0),
    {
        match self {
            Countries::AllowList(countries) => countries.as_str().is_empty(),
            Countries::BlockList(countries) => countries.as_str().is_empty(),
        }
    }

    /// Adds each of `countries` to the list, in order.
    pub fn countries(self, countries: &[Country]) -> (r: Self)
        ensures
            r.is_allow() == self.is_allow(),
            r.list() == joined_all(self.list(), countries@),
    {
        let mut acc = self;
        let mut i: usize = 0;
        while i < countries.len()
            invariant
                i <= countries@.len(),
                acc.is_allow() == self.is_allow(),
                acc.list() == joined_all(self.list(), countries@.subrange(0, i as int)),
            decreases countries@.len() - i,
        {
            acc = acc.country(countries[i].duplicate());
            proof {
                let next = countries@.subrange(0, i + 1);
                assert(next.drop_last() == countries@.subrange(0, i as int));
                assert(next.last() == countries@[i as int]);
            }
            i = i + 1;
        }
        assert(countries@.subrange(0, countries@.len() as int) == countries@);
        acc
    }

    /// Adds `country` at the end of the list.
    pub fn country(self, country: Country) -> (r: Self)
        ensures
            r.is_allow() == self.is_allow(),
            r.list() == joined(self.list(), country@),
            r.list().len() > 0,
    {
        let tag = country.code();
        match self {
            Countries::AllowList(list) => Countries::AllowList(push_code(list, tag)),
            Countries::BlockList(list) => Countries::BlockList(push_code(list, tag)),
        }
    }
}

fn push_code(list: String, code: String) -> (r: String)
    ensures
        r@ == joined(list@, code@),
{
    if list.as_str().is_empty() {
        code
    } else {
        let with_comma = list.concat(",");
        proof {
            reveal_strlit(",");
        }
        with_comma.concat(code.as_str())
    }
}

impl Default for Countries {
    /// Blocks no country.
    fn default() -> (r: Self)
        ensures
            !r.is_allow(),
            r.list().len() == 0,
    {
        Countries::block()
    }
}

/// The anonymity level of a proxy. Transparent proxies are not offered.
#[derive(Clone, Copy, Debug, PartialEq, Eq)]
pub enum Level {
    Anonymous,
    Elite,
}

impl Level {
    pub open spec fn wire(self) -> Seq<char> {
        match self {
            Level::Anonymous => "anonymous"@,
            Level::Elite => "elite"@,
        }
    }

    /// The name the API uses for the level.
    pub fn wire_name(&self) -> (r: String)
        ensures
            r@ == self.wire(),
    {
        match self {
            Level::Anonymous => String::from_str("anonymous"),
            Level::Elite => String::from_str("elite"),
        }
    }
}

/// The protocol a proxy speaks.
#[derive(Clone, Copy, Debug, PartialEq, Eq)]
pub enum Protocol {
    Http,
    Socks4,
    Socks5,
}

impl Protocol {
    pub open spec fn wire(self) -> Seq<char> {
        match self {
            Protocol::Http => "http"@,
            Protocol::Socks4 => "socks4"@,
            Protocol::Socks5 => "socks5"@,
        }
    }

    /// The name the API uses for the protocol.
    pub fn wire_name(&self) -> (r: String)
        ensures
            r@ == self.wire(),
    {
        match self {
            Protocol::Http => String::from_str("http"),
            Protocol::Socks4 => String::from_str("socks4"),
            Protocol::Socks5 => String::from_str("socks5"),
        }
    }
}

} // verus!
