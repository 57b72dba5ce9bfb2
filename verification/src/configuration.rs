//! Assembly of the request pipeline's configuration: the bearer credential,
//! the shared admission budget, and the retry policy, together with the
//! pipeline's request-normalization step.
//!
//! The pipeline itself is a fixed, ordered composition — limiter gate, then
//! retry wrapper, then normalization, then transport — and is stateless;
//! all mutable state lives in the limiter's queue.
use crate::limiter::{RateBudget, RATE_TTL_MILLIS, RPS};
use crate::retry::{RetryPolicy, DEFAULT_MAX_RETRIES};
use vstd::prelude::*;

verus! {

/// A configuration error: fatal at startup, never deferred to first use.
#[derive(Clone, Copy, Debug, PartialEq, Eq, Structural)]
pub enum ConfigError {
    /// The rate budget names a zero request count or a zero window.
    InvalidRateBudget,
    /// No bearer token was supplied.
    MissingToken,
}

/// What the normalization step reads of an outbound request: whether it
/// carries a body and whether a `content-length` header is present.
#[derive(Clone, Copy, Debug, PartialEq, Eq, Structural)]
pub struct RequestShape {
    pub has_body: bool,
    pub has_content_length: bool,
}

/// The pipeline's request-normalization step: a bodiless request is
/// guaranteed a well-formed length indicator.
pub struct ContentLengthFixMiddleware;

impl ContentLengthFixMiddleware {
    /// Whether the request must gain a zero-length indicator.
    pub open spec fn spec_needs_header(req: RequestShape) -> bool {
        !req.has_body && !req.has_content_length
    }

    /// Normalize one outbound request: after the call a bodiless request
    /// always carries a `content-length` header, and a request that already
    /// had a body or the header is left untouched.
    pub fn handle(req: RequestShape) -> (r: RequestShape)
        ensures
            r.has_body == req.has_body,
            r.has_content_length == (req.has_content_length || !req.has_body),
            !Self::spec_needs_header(req) ==> r == req,
    {
        if !req.has_body && !req.has_content_length {
            RequestShape { has_body: req.has_body, has_content_length: true }
        } else {
            req
        }
    }
}

/// The pipeline configuration every governed request is issued under: one
/// credential, one shared budget, one retry policy, for the process
/// lifetime.
#[derive(Debug)]
pub struct Configuration {
    pub bearer_access_token: Option<String>,
    pub budget: RateBudget,
    pub retry: RetryPolicy,
}

/// Builds pipeline configurations.
pub struct ConfigurationFactory {}

impl ConfigurationFactory {
    /// The configuration used process-wide: the given bearer token, the
    /// default admission budget, and the default retry policy.
    pub fn get_config(token: &str) -> (r: Configuration)
        ensures
            r.bearer_access_token matches Some(t) && t@ == token@,
            r.budget == (RateBudget { max_requests: RPS, window_millis: RATE_TTL_MILLIS }),
            r.retry == (RetryPolicy { max_retries: DEFAULT_MAX_RETRIES }),
    {
        Configuration {
            bearer_access_token: Some(token.to_owned()),
            budget: RateBudget { max_requests: RPS, window_millis: RATE_TTL_MILLIS },
            retry: RetryPolicy { max_retries: DEFAULT_MAX_RETRIES },
        }
    }

    /// The configuration from what the process start supplies: the bearer
    /// token and the two budget knobs. A missing token and a zero knob are
    /// fatal at startup, never deferred to first use.
    pub fn get_config_checked(
        token: Option<String>,
        max_requests: usize,
        window_millis: u64,
    ) -> (r: Result<Configuration, ConfigError>)
        ensures
            r is Ok <==> token is Some && max_requests >= 1 && window_millis >= 1,
            r matches Ok(c) ==> {
                &&& token matches Some(t) && c.bearer_access_token matches Some(ct) && ct@ == t@
                &&& c.budget == (RateBudget { max_requests, window_millis })
                &&& c.budget.valid()
                &&& c.retry == (RetryPolicy { max_retries: DEFAULT_MAX_RETRIES })
            },
            r matches Err(e) ==> if token is None {
                e == ConfigError::MissingToken
            } else {
                e == ConfigError::InvalidRateBudget
            },
    {
        match token {
            Some(t) => match RateBudget::new(max_requests, window_millis) {
                Ok(budget) => Ok(
                    Configuration {
                        bearer_access_token: Some(t),
                        budget,
                        retry: RetryPolicy { max_retries: DEFAULT_MAX_RETRIES },
                    },
                ),
                Err(e) => Err(e),
            },
            None => Err(ConfigError::MissingToken),
        }
    }
}

} // verus!
