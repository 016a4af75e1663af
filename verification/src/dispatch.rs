//! One task of the dispatcher: from a target to the request that is sent, or
//! to the failure that is reported in its place.

use vstd::prelude::*;
use vstd::string::*;
use crate::config::{cookie_header, cookie_text, pair_views, Config};
use crate::mode::ProbeTarget;
use crate::probe_url::{construct_spec, construct_url};
use crate::report::{probe_failed, ProbeError, ProbeResult};
use crate::status::Outcome;

verus! {

/// What is handed to the transport for each attempt of a probe.
#[derive(Clone, Debug)]
pub struct Request {
    pub url: String,
    /// The client identity, sent as the `User-Agent` header.
    pub identity: String,
    /// The `Cookie` header, where the run has cookies.
    pub cookie: Option<String>,
    /// The timeout of each attempt, in seconds.
    pub timeout_secs: u64,
}

/// Builds the request of a target. Where no URL can be built the target fails
/// by itself, with no attempt made, and the run goes on.
pub fn prepare_request(config: &Config, target: &ProbeTarget, identity: &str) -> (r: Result<
    Request,
    ProbeResult,
>)
    ensures
        match construct_spec(config.target_url@, target.word@, target.mode) {
            Ok(url) => r is Ok && r->Ok_0.url@ == url && r->Ok_0.identity@ == identity@
                && r->Ok_0.timeout_secs == config.timeout_secs && (r->Ok_0.cookie is Some
                <==> config.cookies@.len() > 0) && (r->Ok_0.cookie is Some
                ==> r->Ok_0.cookie->0@ == cookie_text(pair_views(config.cookies@))),
            Err(e) => r is Err && r->Err_0.outcome == Outcome::Failed && r->Err_0.error == Some(
                ProbeError::Construction(e),
            ) && r->Err_0.url@ == target.word@ && r->Err_0.attempts == 0
                && r->Err_0.status_code == 0 && r->Err_0.content_length == 0,
        },
{
    match construct_url(config.target_url.as_str(), target.word.as_str(), target.mode) {
        Ok(url) => Ok(
            Request {
                url,
                identity: String::from_str(identity),
                cookie: cookie_header(&config.cookies),
                timeout_secs: config.timeout_secs,
            },
        ),
        Err(e) => Err(probe_failed(target.word.clone(), 0, ProbeError::Construction(e))),
    }
}

} // verus!
