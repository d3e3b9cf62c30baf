//! The one outbound edge of the library: a single blocking GET request,
//! made through reqwest. Nothing is promised of what the network answers;
//! the verified callers state what holds of every outcome.

use vstd::prelude::*;

verus! {

#[verifier::external_type_specification]
#[verifier::external_body]
pub struct ExResponse(reqwest::blocking::Response);

#[verifier::external_type_specification]
#[verifier::external_body]
pub struct ExReqwestError(reqwest::Error);

/// Relies on reqwest::blocking::ClientBuilder (`timeout`, `connect_timeout`,
/// `build`) and reqwest::blocking::RequestBuilder::send: one GET request to
/// `url`, with the connect and the whole-request timeout each bounded by
/// `timeout_secs` seconds. The outcome is the network's.
#[verifier::external_body]
pub(crate) fn http_get(url: &str, timeout_secs: u64) -> Result<
    reqwest::blocking::Response,
    reqwest::Error,
> {
    let client = match reqwest::blocking::Client::builder()
        .timeout(std::time::Duration::from_secs(timeout_secs))
        .connect_timeout(std::time::Duration::from_secs(timeout_secs))
        .build() {
        Ok(c) => c,
        Err(e) => return Err(e),
    };
    client.get(url).send()
}

/// Relies on reqwest::blocking::Response::status and
/// reqwest::StatusCode::as_u16: the numeric HTTP status of the response.
#[verifier::external_body]
pub(crate) fn response_status(resp: &reqwest::blocking::Response) -> u16 {
    resp.status().as_u16()
}

/// Relies on reqwest::blocking::Response::text: the response body decoded
/// as UTF-8 text.
#[verifier::external_body]
pub(crate) fn response_text(resp: reqwest::blocking::Response) -> Result<String, reqwest::Error> {
    resp.text()
}

} // verus!
