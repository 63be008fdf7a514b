//! The client facade: configuration, key validation, and the decisions of
//! one feed fetch.
//!
//! The facade holds the API key and the retry policy. Building it validates
//! the key: every byte must be one a header value may carry, so that the
//! key can travel as the `X-API-KEY` header. The HTTP exchange itself is
//! the caller's transport's business; the facade supplies the query pairs,
//! decides retries, and classifies the final outcome.

pub mod feed;

use vstd::prelude::*;
use vstd::string::StringSliceAdditionalSpecFns;
use crate::constants::{MIN_RETRY_INTERVAL, MAX_RETRY_INTERVAL, MAX_RETRIES};
use crate::error::{Error, ErrorV};
use crate::retry::{HttpResponse, TransportError, RetryPolicy, get_retry_strategy};

verus! {

/// Whether every byte may appear in a header value: printable bytes and
/// the horizontal tab, but no other control byte and not the delete byte.
pub open spec fn spec_header_value_ok(bytes: Seq<u8>) -> bool {
    forall|i: int| 0 <= i < bytes.len() ==> (#[trigger] bytes[i] >= 32 && bytes[i] != 127)
        || bytes[i] == 9
}

/// The feed API client: the validated key and the retry policy.
#[derive(Debug, Clone, PartialEq)]
pub struct CieloApi {
    /// The API key, sent as the `X-API-KEY` header. Sensitive: never log it.
    pub api_key: String,
    /// The retry policy for every request this client issues.
    pub policy: RetryPolicy,
}

impl CieloApi {
    /// Builds a client from a non-empty API key and optional overrides of
    /// the three retry parameters. Construction fails exactly when the key
    /// cannot be encoded as a header value.
    pub fn new(
        api_key: &str,
        min_retry_interval: Option<u64>,
        max_retry_interval: Option<u64>,
        max_retries: Option<u32>,
    ) -> (r: Result<CieloApi, Error>)
        requires
            api_key@.len() >= 1,
        ensures
            match r {
                Ok(api) => spec_header_value_ok(api_key.spec_bytes()) && api.api_key@ == api_key@
                    && api.policy == (RetryPolicy {
                    min_retry_interval: match min_retry_interval {
                        Some(v) => v,
                        None => MIN_RETRY_INTERVAL,
                    },
                    max_retry_interval: match max_retry_interval {
                        Some(v) => v,
                        None => MAX_RETRY_INTERVAL,
                    },
                    max_retries: match max_retries {
                        Some(v) => v,
                        None => MAX_RETRIES,
                    },
                }),
                Err(e) => !spec_header_value_ok(api_key.spec_bytes()) && e == Error::InvalidApiKey,
            },
    {
        let bytes = api_key.as_bytes();
        let n = bytes.len();
        for i in 0..n
            invariant
                n == bytes@.len(),
                bytes@ == api_key.spec_bytes(),
                forall|j: int|
                    0 <= j < i ==> (#[trigger] bytes@[j] >= 32 && bytes@[j] != 127) || bytes@[j]
                        == 9,
        {
            let b = bytes[i];
            if !((b >= 32 && b != 127) || b == 9) {
                return Err(Error::InvalidApiKey);
            }
        }
        let policy = get_retry_strategy(
            min_retry_interval.unwrap_or(MIN_RETRY_INTERVAL),
            max_retry_interval.unwrap_or(MAX_RETRY_INTERVAL),
            max_retries.unwrap_or(MAX_RETRIES),
        );
        Ok(CieloApi { api_key: api_key.to_owned(), policy })
    }
}

/// Turns the last observed outcome of a request into the caller's result:
/// a 200 response yields its body for decoding, any other response is a
/// non-success-status error carrying the raw body text, and a transport
/// failure is a transport error carrying its description.
pub fn classify_final_outcome(outcome: Result<HttpResponse, TransportError>) -> (r: Result<
    String,
    Error,
>)
    ensures
        match outcome {
            Ok(resp) => if resp.status == 200 {
                r matches Ok(body) && body@ == resp.body@
            } else {
                r matches Err(e) && e@ == ErrorV::StatusNot200(resp.body@)
            },
            Err(t) => r matches Err(e) && e@ == ErrorV::Transport(t.message@),
        },
{
    match outcome {
        Ok(resp) => {
            if resp.status == 200 {
                Ok(resp.body)
            } else {
                Err(Error::StatusNot200(resp.body))
            }
        },
        Err(t) => Err(Error::Transport(t.message)),
    }
}

} // verus!
