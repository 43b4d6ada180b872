//! A client library for the pubproxy.com proxy-list API.
//!
//! The library holds the logic of the client: validated request options and their query
//! encoding, the classification of the API's answers, the conversion of raw records into
//! [`proxy::Proxy`] values, the buffer that a [`fetcher::Fetcher`] serves records from and the
//! pacing rule that keeps the requests of one session at least [`pacing::DELAY_MS`] apart.
//! Network access, sleeping and locking are left to the caller, which drives a fetcher through
//! [`fetcher::Fetcher::advance`].

pub mod errors;
pub mod types;
pub mod opts;
pub mod proxy;
pub mod pacing;
pub mod fetcher;
