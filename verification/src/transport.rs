use vstd::prelude::*;
use crate::error::HttpError;
use crate::text::is_tchar;

verus! {

/// A reusable transport handle: the unit of connection pooling. It has no
/// request-specific state and may be shared across unrelated requests.
pub struct HttpClient {
    inner: reqwest::blocking::Client,
}

/// A raw response: the status code and the full, not yet decoded body bytes.
pub struct RawResponse {
    pub status: u16,
    pub body: Vec<u8>,
}

/// Relies on `reqwest::blocking::Client::builder().build()`: a fresh pooled
/// client, or an error when the TLS backend or the system resolver
/// configuration cannot be set up. The outcome depends on the machine, so
/// nothing is promised of it.
#[verifier::external_body]
fn build_client() -> (r: Result<reqwest::blocking::Client, String>) {
    reqwest::blocking::Client::builder().build().map_err(|e| e.to_string())
}

/// Create a new transport handle. Fails with `ClientInit` exactly when the
/// transport's own setup fails; the failure is terminal for this call only.
pub fn client() -> (r: Result<HttpClient, HttpError>)
    ensures
        r matches Err(e) ==> e matches HttpError::ClientInit(_),
{
    match build_client() {
        Ok(c) => Ok(HttpClient { inner: c }),
        Err(m) => Err(HttpError::ClientInit(m)),
    }
}

/// Relies on `http`'s `Method::from_str` (reexported as `reqwest::Method`):
/// it accepts exactly the nonempty strings of HTTP token characters, the
/// well-known method names among them.
#[verifier::external_body]
pub(crate) fn parse_method(m: &str) -> (r: Result<reqwest::Method, String>)
    ensures
        r is Ok <==> (m@.len() > 0 && forall|i: int| 0 <= i < m@.len() ==> is_tchar(
            #[trigger] m@[i],
        )),
{
    <reqwest::Method as std::str::FromStr>::from_str(m).map_err(|e| e.to_string())
}

/// Relies on `reqwest::blocking::Client::request`: starts a request builder
/// for this method and URL. A malformed URL is held by the builder and
/// surfaces as an error when the request is sent.
#[verifier::external_body]
pub(crate) fn new_request(c: &HttpClient, m: reqwest::Method, url: &str) -> (b:
    reqwest::blocking::RequestBuilder) {
    c.inner.request(m, url)
}

/// Relies on `reqwest::blocking::RequestBuilder::header`: appends one header
/// pair, keeping insertion order and duplicates; a pair the transport's
/// grammar rejects surfaces as an error at send time.
#[verifier::external_body]
pub(crate) fn add_header(
    b: reqwest::blocking::RequestBuilder,
    name: &str,
    value: &str,
) -> (out: reqwest::blocking::RequestBuilder) {
    b.header(name, value)
}

/// Relies on `reqwest::blocking::RequestBuilder::body`: sets the request
/// body to exactly these bytes.
#[verifier::external_body]
pub(crate) fn set_body(
    b: reqwest::blocking::RequestBuilder,
    body: String,
) -> (out: reqwest::blocking::RequestBuilder) {
    b.body(body)
}

/// Relies on `reqwest::blocking::RequestBuilder::send`: one blocking
/// exchange. Every failure (URL parse, connection, TLS, DNS, timeout) comes
/// back as its message; the outcome depends on the network, so nothing is
/// promised of it.
#[verifier::external_body]
pub(crate) fn send_request(b: reqwest::blocking::RequestBuilder) -> (r: Result<
    reqwest::blocking::Response,
    String,
>) {
    b.send().map_err(|e| e.to_string())
}

/// Relies on `reqwest::blocking::Response::status`: the response status code.
#[verifier::external_body]
pub(crate) fn status_code(r: &reqwest::blocking::Response) -> (s: u16) {
    r.status().as_u16()
}

/// Relies on `reqwest::blocking::Response::bytes`: reads the whole body,
/// consuming the response; a read failure comes back as its message.
#[verifier::external_body]
pub(crate) fn read_body(r: reqwest::blocking::Response) -> (b: Result<Vec<u8>, String>) {
    match r.bytes() {
        Ok(b) => Ok(b.to_vec()),
        Err(e) => Err(e.to_string()),
    }
}

} // verus!
