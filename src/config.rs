//! The relay's settings: the remote API, its credentials, and the HTTP timeout.
use vstd::prelude::*;

use crate::text::{parse_count, parse_u64};

verus! {

/// The timeout, in milliseconds, when none or no valid one is configured.
pub const DEFAULT_TIMEOUT_MS: u64 = 30000;

/// Settings of the remote API.
#[derive(Debug)]
pub struct Config {
    pub api_url: String,
    pub api_key: String,
    pub api_secret: String,
    pub oauth_token_url: String,
    pub timeout_ms: u64,
}

/// The timeout that the raw setting `raw` gives.
pub open spec fn timeout_spec(raw: Option<Seq<u8>>) -> u64 {
    match raw {
        Some(s) => match parse_count(s, u64::MAX as nat) {
            Some(v) => v as u64,
            None => DEFAULT_TIMEOUT_MS,
        },
        None => DEFAULT_TIMEOUT_MS,
    }
}

impl Config {
    /// The timeout in milliseconds: the raw setting read as an unsigned
    /// integer, or the default where it is absent or unreadable.
    pub fn timeout_from(raw: Option<&[u8]>) -> (r: u64)
        ensures
            r == timeout_spec(
                match raw {
                    Some(s) => Some(s@),
                    None => None,
                },
            ),
    {
        match raw {
            Some(s) => match parse_u64(s) {
                Some(v) => v,
                None => DEFAULT_TIMEOUT_MS,
            },
            None => DEFAULT_TIMEOUT_MS,
        }
    }
}

} // verus!
