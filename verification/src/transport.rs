use vstd::prelude::*;
use reqwest::header::HeaderMap;
use crate::headers::{header_count, FIELD_LIMIT};

verus! {

/// The transport handle: a reusable network session; opaque to this library.
#[verifier::external_type_specification]
#[verifier::external_body]
pub struct ExTransport(reqwest::Client);

/// `ClientBuilder::build`, after `timeout` and `default_headers` have been given the
/// timeout and the headers: a transport handle, or the message of the transport layer's
/// error. Whether it succeeds depends on the machine, so nothing is claimed of the
/// outcome. `default_headers` adds the headers to a collection of the builder's own and
/// panics where that cannot grow, which `requires` leaves out.
#[verifier::external_body]
pub(crate) fn build_transport(timeout_ms: u64, headers: HeaderMap) -> (outcome: Result<
    reqwest::Client,
    String,
>)
    requires
        header_count(headers) < FIELD_LIMIT,
{
    reqwest::Client::builder()
        .timeout(std::time::Duration::from_millis(timeout_ms))
        .default_headers(headers)
        .build()
        .map_err(|e| e.to_string())
}

/// `Client::clone`: another handle on the same session.
#[verifier::external_body]
pub(crate) fn share_transport(transport: &reqwest::Client) -> (shared: reqwest::Client) {
    transport.clone()
}

} // verus!
