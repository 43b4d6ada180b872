//! The errors expressed by the API and by the library.
//!
//! An [`ApiError`] is what pubproxy.com answered instead of proxies; a [`ParamError`] is a
//! parameter that lies outside the range the API accepts.

use vstd::prelude::*;

use crate::types::NaiveResponse;

verus! {

/// A parameter value that lies outside its bounds.
#[derive(Debug, PartialEq, Eq)]
pub enum ParamError<T> {
    OutOfBounds { bounds: (T, T), value: T },
}

impl<T> ParamError<T> {
    pub fn out_of_bounds(value: T, bounds: (T, T)) -> (r: Self)
        ensures
            r == (ParamError::OutOfBounds { bounds, value }),
    {
        ParamError::OutOfBounds { bounds, value }
    }
}

/// Every error that the API can answer with.
///
/// `Client` should be prevented by this library, `RateLimit` and `DailyLimit` come from heavy use
/// and `NoProxy` from parameters that are too strict.
#[derive(Debug, PartialEq, Eq)]
pub enum ApiError {
    Client { status: u16, text: String },
    Server { status: u16, text: String },
    ApiKey,
    RateLimit,
    DailyLimit,
    NoProxy,
    Unknown,
}

pub const INVALID_API_KEY: &'static str =
    "Invalid API. Get your API to make unlimited requests at http://pubproxy.com/#premium";

pub const RATE_LIMIT: &'static str = "We have to temporarily stop you. You're requesting proxies a little too \
                          fast (2+ requests per second). Get your API to remove this limit at
                          http://pubproxy.com/#premium";

pub const DAILY_LIMIT: &'static str = "You reached the maximum 50 requests for today. Get your API to make \
                           unlimited requests at http://pubproxy.com/#premium";

pub const NO_PROXY: &'static str = "No proxy";

/// The error that a message body names: one of the four known messages, else `Unknown`.
pub open spec fn error_of_text(text: Seq<char>) -> ApiError {
    if text == INVALID_API_KEY@ {
        ApiError::ApiKey
    } else if text == RATE_LIMIT@ {
        ApiError::RateLimit
    } else if text == DAILY_LIMIT@ {
        ApiError::DailyLimit
    } else if text == NO_PROXY@ {
        ApiError::NoProxy
    } else {
        ApiError::Unknown
    }
}

pub open spec fn is_known_message(text: Seq<char>) -> bool {
    error_of_text(text) != ApiError::Unknown
}

pub open spec fn is_client_status(status: u16) -> bool {
    400 <= status < 500
}

pub open spec fn is_server_status(status: u16) -> bool {
    500 <= status < 600
}

/// `e` is the error for an answer with this status and body. Known messages come first, as
/// some of them arrive with varied status codes; other bodies are kept with their status.
pub open spec fn is_error_for(e: ApiError, status: u16, text: Seq<char>) -> bool {
    if is_known_message(text) {
        e == error_of_text(text)
    } else if is_client_status(status) {
        e matches ApiError::Client { status: s, text: t } && s == status && t@ == text
    } else if is_server_status(status) {
        e matches ApiError::Server { status: s, text: t } && s == status && t@ == text
    } else {
        e == ApiError::Unknown
    }
}

/// The four known messages are told apart by their first character.
proof fn lemma_messages_distinct()
    ensures
        INVALID_API_KEY@ != RATE_LIMIT@,
        INVALID_API_KEY@ != DAILY_LIMIT@,
        INVALID_API_KEY@ != NO_PROXY@,
        RATE_LIMIT@ != DAILY_LIMIT@,
        RATE_LIMIT@ != NO_PROXY@,
        DAILY_LIMIT@ != NO_PROXY@,
{
    reveal_strlit("Invalid API. Get your API to make unlimited requests at http://pubproxy.com/#premium");
    reveal_strlit("No proxy");
    reveal_strlit("We have to temporarily stop you. You're requesting proxies a little too \
                          fast (2+ requests per second). Get your API to remove this limit at
                          http://pubproxy.com/#premium");
    reveal_strlit("You reached the maximum 50 requests for today. Get your API to make \
                           unlimited requests at http://pubproxy.com/#premium");
    assert(RATE_LIMIT@[0] == 'W');
    assert(DAILY_LIMIT@[0] == 'Y');
    assert(INVALID_API_KEY@[0] == 'I');
    assert(NO_PROXY@[0] == 'N');
}

/// Classification of the API's answers. Each of the four known messages names its error,
/// whatever the status. Any other body of a 4xx answer is a client error and of a 5xx answer a
/// server error, each keeping the status and the text. Any other body of a successful answer
/// that is not records is `Unknown`.
pub proof fn law_error_classification(status: u16, text: Seq<char>, e: ApiError)
    ensures
        text == INVALID_API_KEY@ ==> (is_error_for(e, status, text) <==> e == ApiError::ApiKey),
        text == RATE_LIMIT@ ==> (is_error_for(e, status, text) <==> e == ApiError::RateLimit),
        text == DAILY_LIMIT@ ==> (is_error_for(e, status, text) <==> e == ApiError::DailyLimit),
        text == NO_PROXY@ ==> (is_error_for(e, status, text) <==> e == ApiError::NoProxy),
        !is_known_message(text) && is_client_status(status) ==> (is_error_for(e, status, text) <==> (
        e matches ApiError::Client { status: s, text: t } && s == status && t@ == text)),
        !is_known_message(text) && is_server_status(status) ==> (is_error_for(e, status, text) <==> (
        e matches ApiError::Server { status: s, text: t } && s == status && t@ == text)),
        !is_known_message(text) ==> error_of_text(text) == ApiError::Unknown,
{
    lemma_messages_distinct();
}

impl ApiError {
    /// The error that the message `text` names.
    pub fn from_text(text: &String) -> (r: ApiError)
        ensures
            r == error_of_text(text@),
    {
        if *text == String::from_str(INVALID_API_KEY) {
            ApiError::ApiKey
        } else if *text == String::from_str(RATE_LIMIT) {
            ApiError::RateLimit
        } else if *text == String::from_str(DAILY_LIMIT) {
            ApiError::DailyLimit
        } else if *text == String::from_str(NO_PROXY) {
            ApiError::NoProxy
        } else {
            ApiError::Unknown
        }
    }

    /// The error for an answer that carried no proxies. An answer whose status is neither a
    /// client nor a server error must carry one of the known messages.
    pub fn from_response(resp: NaiveResponse) -> (r: ApiError)
        requires
            is_known_message(resp.text@) || is_client_status(resp.status) || is_server_status(
                resp.status,
            ),
        ensures
            is_error_for(r, resp.status, resp.text@),
    {
        let NaiveResponse { status, text } = resp;
        match ApiError::from_text(&text) {
            ApiError::Unknown => {
                if 400 <= status && status < 500 {
                    ApiError::Client { status, text }
                } else {
                    ApiError::Server { status, text }
                }
            },
            err => err,
        }
    }
}

impl From<String> for ApiError {
    fn from(s: String) -> (r: ApiError) {
        ApiError::from_text(&s)
    }
}

impl vstd::std_specs::convert::FromSpecImpl<String> for ApiError {
    open spec fn obeys_from_spec() -> bool {
        true
    }

    open spec fn from_spec(s: String) -> ApiError {
        error_of_text(s@)
    }
}

} // verus!
