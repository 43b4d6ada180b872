//! [`Proxy`] records, and how the records of an answer become them.
//!
//! A [`RawProxy`] holds a record as the API writes it: the time and the connect time are text,
//! the country is a code that may not resolve and the capabilities are flags. Records whose
//! country does not resolve are dropped; a record whose time or connect time cannot be read
//! makes the whole answer unreadable.

use vstd::prelude::*;

use chrono::{Datelike, Timelike};

use crate::types::{is_country_code, Country, Level, Protocol};

verus! {

/// An IPv4 address and a port.
#[derive(Clone, Copy, Debug, PartialEq, Eq)]
pub struct Socket {
    pub ip: [u8; 4],
    pub port: u16,
}

/// A date and time of day, without time zone.
#[derive(Clone, Copy, Debug, PartialEq, Eq)]
pub struct Timestamp {
    pub year: i32,
    pub month: u32,
    pub day: u32,
    pub hour: u32,
    pub minute: u32,
    pub second: u32,
}

/// The year, month, day, hour, minute and second that chrono reads from `s` with the format
/// `%F %T`, if it reads one.
pub uninterp spec fn parsed_timestamp(s: Seq<char>) -> Option<(i32, u32, u32, u32, u32, u32)>;

/// Relies on chrono's `NaiveDateTime::parse_from_str` with the format `%F %T`
/// (`YYYY-MM-DD HH:MM:SS`), read back through its date and time accessors.
#[verifier::external_body]
fn parse_timestamp(s: &str) -> (r: Option<(i32, u32, u32, u32, u32, u32)>)
    ensures
        r == parsed_timestamp(s@),
{
    match chrono::NaiveDateTime::parse_from_str(s, "%F %T") {
        Ok(t) => Some((t.year(), t.month(), t.day(), t.hour(), t.minute(), t.second())),
        Err(_) => None,
    }
}

pub open spec fn timestamp_of(f: (i32, u32, u32, u32, u32, u32)) -> Timestamp {
    Timestamp { year: f.0, month: f.1, day: f.2, hour: f.3, minute: f.4, second: f.5 }
}

pub open spec fn is_digit(c: char) -> bool {
    '0' <= c <= '9'
}

/// The number that a string of decimal digits writes.
pub open spec fn digits_value(s: Seq<char>) -> nat
    decreases s.len(),
{
    if s.len() == 0 {
        0
    } else {
        digits_value(s.drop_last()) * 10 + ((s.last() as u32) - ('0' as u32)) as nat
    }
}

/// `s` without a leading `+`.
pub open spec fn unsigned_digits(s: Seq<char>) -> Seq<char> {
    if s.len() > 0 && s[0] == '+' {
        s.drop_first()
    } else {
        s
    }
}

/// What `str::parse::<u64>` reads: an optional `+` and then one or more decimal digits, with
/// nothing else around them, that write a number no larger than `u64::MAX`.
pub open spec fn parsed_u64(s: Seq<char>) -> Option<u64> {
    let d = unsigned_digits(s);
    if d.len() > 0 && (forall|i: int| 0 <= i < d.len() ==> is_digit(#[trigger] d[i]))
        && digits_value(d) <= u64::MAX {
        Some(digits_value(d) as u64)
    } else {
        None
    }
}

/// Relies on `FromStr` for `u64`, which takes an optional `+` followed by decimal digits only
/// and fails on anything else, on an empty string and on a value too large for `u64`.
#[verifier::external_body]
fn parse_u64(s: &str) -> (r: Option<u64>)
    ensures
        r == parsed_u64(s@),
{
    s.parse::<u64>().ok()
}

/// The capability flags of a record as the API writes them: `1` for yes, anything else or
/// nothing for no.
#[derive(Clone, Copy, Debug, PartialEq, Eq)]
pub struct RawSupports {
    pub https: Option<u8>,
    pub get: Option<u8>,
    pub post: Option<u8>,
    pub cookies: Option<u8>,
    pub referer: Option<u8>,
    pub forwards_user_agent: Option<u8>,
    pub connects_to_google: Option<u8>,
}

/// All the attributes that a [`Proxy`] supports.
#[derive(Clone, Copy, Debug, Default, PartialEq, Eq)]
pub struct Supports {
    pub https: bool,
    pub get: bool,
    pub post: bool,
    pub cookies: bool,
    pub referer: bool,
    pub forwards_user_agent: bool,
    pub connects_to_google: bool,
}

/// A flag is set only when it is there and is `1`; a missing flag counts as not set.
pub open spec fn flag(field: Option<u8>) -> bool {
    field == Some(1u8)
}

pub open spec fn supports_of(raw: RawSupports) -> Supports {
    Supports {
        https: flag(raw.https),
        get: flag(raw.get),
        post: flag(raw.post),
        cookies: flag(raw.cookies),
        referer: flag(raw.referer),
        forwards_user_agent: flag(raw.forwards_user_agent),
        connects_to_google: flag(raw.connects_to_google),
    }
}

fn parse_flag(field: Option<u8>) -> (r: bool)
    ensures
        r == flag(field),
{
    match field {
        Some(val) => val == 1,
        None => false,
    }
}

impl From<RawSupports> for Supports {
    fn from(raw: RawSupports) -> (r: Supports) {
        Supports {
            https: parse_flag(raw.https),
            get: parse_flag(raw.get),
            post: parse_flag(raw.post),
            cookies: parse_flag(raw.cookies),
            referer: parse_flag(raw.referer),
            forwards_user_agent: parse_flag(raw.forwards_user_agent),
            connects_to_google: parse_flag(raw.connects_to_google),
        }
    }
}

impl vstd::std_specs::convert::FromSpecImpl<RawSupports> for Supports {
    open spec fn obeys_from_spec() -> bool {
        true
    }

    open spec fn from_spec(raw: RawSupports) -> Supports {
        supports_of(raw)
    }
}

/// One record of an answer, as the API writes it.
#[derive(Clone, Debug, PartialEq, Eq)]
pub struct RawProxy {
    pub socket: Socket,
    /// The country code; empty where the API gave none that could be read.
    pub country: String,
    /// `YYYY-MM-DD HH:MM:SS`.
    pub last_checked: String,
    pub level: Level,
    pub protocol: Protocol,
    /// Whole seconds, written in decimal.
    pub time_to_connect: String,
    pub supports: RawSupports,
}

/// All the information on a proxy.
#[derive(Clone, Debug, PartialEq, Eq)]
pub struct Proxy {
    pub socket: Socket,
    pub country: Country,
    pub last_checked: Timestamp,
    pub level: Level,
    pub protocol: Protocol,
    /// Seconds.
    pub time_to_connect: u64,
    pub supports: Supports,
}

/// The field of a record that could not be read.
#[derive(Clone, Copy, Debug, PartialEq, Eq)]
pub enum RecordError {
    /// The time it was last checked.
    Time,
    /// The time it took to connect.
    Number,
}

/// Which field of `raw` cannot be read, the time first.
pub open spec fn record_error(raw: RawProxy) -> Option<RecordError> {
    if parsed_timestamp(raw.last_checked@) is None {
        Some(RecordError::Time)
    } else if parsed_u64(raw.time_to_connect@) is None {
        Some(RecordError::Number)
    } else {
        None
    }
}

pub open spec fn resolves(raw: RawProxy) -> bool {
    is_country_code(raw.country@)
}

/// `p` is the record `raw`, read.
pub open spec fn is_proxy_of(p: Proxy, raw: RawProxy) -> bool {
    &&& p.socket == raw.socket
    &&& p.country@ == raw.country@
    &&& parsed_timestamp(raw.last_checked@) == Some(
        (
            p.last_checked.year,
            p.last_checked.month,
            p.last_checked.day,
            p.last_checked.hour,
            p.last_checked.minute,
            p.last_checked.second,
        ),
    )
    &&& parsed_u64(raw.time_to_connect@) == Some(p.time_to_connect)
    &&& p.level == raw.level
    &&& p.protocol == raw.protocol
    &&& p.supports == supports_of(raw.supports)
}

/// The records whose country resolves, in order.
pub open spec fn kept(raws: Seq<RawProxy>) -> Seq<RawProxy> {
    raws.filter(|raw: RawProxy| resolves(raw))
}

impl Proxy {
    /// Reads one record. `Ok(None)` is a record whose country does not resolve.
    pub fn from_raw(raw: &RawProxy) -> (r: Result<Option<Proxy>, RecordError>)
        ensures
            r is Err <==> record_error(*raw) is Some,
            r matches Err(e) ==> record_error(*raw) == Some(e),
            r matches Ok(o) ==> (o is Some <==> resolves(*raw)),
            r matches Ok(Some(p)) ==> is_proxy_of(p, *raw),
    {
        let last_checked = match parse_timestamp(raw.last_checked.as_str()) {
            Some(f) => Timestamp {
                year: f.0,
                month: f.1,
                day: f.2,
                hour: f.3,
                minute: f.4,
                second: f.5,
            },
            None => {
                return Err(RecordError::Time);
            },
        };
        let time_to_connect = match parse_u64(raw.time_to_connect.as_str()) {
            Some(secs) => secs,
            None => {
                return Err(RecordError::Number);
            },
        };
        match Country::from_code(raw.country.as_str()) {
            Some(country) => Ok(
                Some(
                    Proxy {
                        socket: raw.socket,
                        country,
                        last_checked,
                        level: raw.level,
                        protocol: raw.protocol,
                        time_to_connect,
                        supports: Supports::from(raw.supports),
                    },
                ),
            ),
            None => Ok(None),
        }
    }
}

/// Reads the records of an answer and keeps those whose country resolves, in order. Fails with
/// the error of the first record that cannot be read.
pub fn proxies_from_raw(raws: &Vec<RawProxy>) -> (r: Result<Vec<Proxy>, RecordError>)
    ensures
        r is Ok <==> forall|i: int| 0 <= i < raws@.len() ==> record_error(#[trigger] raws@[i]) is None,
        r matches Err(e) ==> exists|i: int|
            0 <= i < raws@.len() && record_error(#[trigger] raws@[i]) == Some(e) && forall|j: int|
                0 <= j < i ==> record_error(#[trigger] raws@[j]) is None,
        r matches Ok(v) ==> v@.len() == kept(raws@).len() && forall|k: int|
            0 <= k < v@.len() ==> is_proxy_of(#[trigger] v@[k], kept(raws@)[k]),
{
    let mut out: Vec<Proxy> = Vec::new();
    let mut i: usize = 0;
    while i < raws.len()
        invariant
            i <= raws@.len(),
            forall|j: int| 0 <= j < i ==> record_error(#[trigger] raws@[j]) is None,
            out@.len() == kept(raws@.subrange(0, i as int)).len(),
            forall|k: int|
                0 <= k < out@.len() ==> is_proxy_of(
                    #[trigger] out@[k],
                    kept(raws@.subrange(0, i as int))[k],
                ),
        decreases raws@.len() - i,
    {
        let ghost before = raws@.subrange(0, i as int);
        let ghost after = raws@.subrange(0, i + 1);
        assert(after.drop_last() == before);
        assert(after.last() == raws@[i as int]);
        assert(kept(after) == if resolves(raws@[i as int]) {
            kept(before).push(raws@[i as int])
        } else {
            kept(before)
        }) by {
            reveal(Seq::filter);
        }
        match Proxy::from_raw(&raws[i]) {
            Err(e) => {
                return Err(e);
            },
            Ok(Some(p)) => {
                out.push(p);
            },
            Ok(None) => {},
        }
        i = i + 1;
    }
    assert(raws@.subrange(0, raws@.len() as int) == raws@);
    Ok(out)
}

} // verus!
