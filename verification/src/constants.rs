//! Process-wide default configuration values.

use vstd::prelude::*;

verus! {

/// Base URL of the feed API.
pub const URL: &'static str = "https://feed-api.cielo.finance/api/v1/";

/// Default smallest wait between attempts, in milliseconds.
pub const MIN_RETRY_INTERVAL: u64 = 500;

/// Default largest wait between attempts, in milliseconds.
pub const MAX_RETRY_INTERVAL: u64 = 1000;

/// Default number of retries after the first attempt.
pub const MAX_RETRIES: u32 = 3;

/// The fixed request timeout, in seconds.
pub const REQUEST_TIMEOUT_SECS: u64 = 10;

} // verus!
