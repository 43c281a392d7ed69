use vstd::prelude::*;
use vstd::string::StringExecFns;
use crate::decode::decode;
use crate::descriptor::{
    descriptor_ok, headers_all_ok, headers_err_msg, headers_shape_ok, is_obj, method_ok,
    method_view, output_ok, output_view, rejects, url_ok, validate, Body, Output, Parameters,
};
use crate::error::HttpError;
use crate::header::{check_name, name_ok};
use crate::render::to_json;
use crate::transport::{
    add_header, new_request, parse_method, read_body, send_request, set_body, status_code, HttpClient,
    RawResponse,
};
use crate::value::Dynamic;

verus! {

/// Send a validated descriptor over `client` in one blocking exchange.
///
/// The method token is resolved first: a token outside the transport's
/// method grammar is rejected as `Transport("invalid method")` before
/// anything is sent. The URL is parsed by the transport; all headers are
/// attached in order, duplicates kept; the body is attached unconditionally,
/// empty when absent. Any status code counts as success: status policy is
/// the caller's.
pub fn execute(client: &HttpClient, p: Parameters) -> (r: Result<RawResponse, HttpError>)
    ensures
        !name_ok(p.method@) ==> (r matches Err(e) && e matches HttpError::Transport(m) && m@
            == "invalid method"@),
        r matches Err(e) ==> e matches HttpError::Transport(_),
{
    if !check_name(p.method.as_str()) {
        return Err(HttpError::Transport(String::from_str("invalid method")));
    }
    let m = match parse_method(p.method.as_str()) {
        Ok(m) => m,
        Err(msg) => {
            return Err(HttpError::Transport(msg));
        },
    };
    let mut b = new_request(client, m, p.url.as_str());
    let mut i: usize = 0;
    while i < p.headers.len()
        invariant
            0 <= i <= p.headers@.len(),
        decreases p.headers@.len() - i,
    {
        b = add_header(b, p.headers[i].0.as_str(), p.headers[i].1.as_str());
        i = i + 1;
    }
    let body_text = match &p.body {
        Body::Absent => String::new(),
        Body::Text(s) => s.clone(),
        Body::Structured(v) => to_json(v),
    };
    b = set_body(b, body_text);
    match send_request(b) {
        Err(msg) => Err(HttpError::Transport(msg)),
        Ok(resp) => {
            let status = status_code(&resp);
            match read_body(resp) {
                Ok(bytes) => Ok(RawResponse { status, body: bytes }),
                Err(msg) => Err(HttpError::Transport(msg)),
            }
        },
    }
}

/// Execute a request described by a structured value: validate it into
/// typed parameters, send it over `client`, and decode the response body
/// into the requested output shape.
///
/// Validation is total and runs first: an invalid descriptor is rejected
/// with the validator's exact error before any network activity. A transport
/// failure is reported without attempting a decode; a decode failure never
/// exposes a partial result.
pub fn request(client: &HttpClient, parameters: Dynamic) -> (r: Result<Dynamic, HttpError>)
    ensures
        r is Ok ==> descriptor_ok(parameters),
        !is_obj(parameters) ==> rejects(r, "parameters must be a map"@),
        is_obj(parameters) && !url_ok(parameters) ==> rejects(r, "url must be a string"@),
        is_obj(parameters) && url_ok(parameters) && !method_ok(parameters) ==> rejects(
            r,
            "method must be a string"@,
        ),
        is_obj(parameters) && url_ok(parameters) && method_ok(parameters) && !headers_shape_ok(
            parameters,
        ) ==> rejects(r, "headers must be an array or a map"@),
        is_obj(parameters) && url_ok(parameters) && method_ok(parameters) && headers_shape_ok(
            parameters,
        ) && !headers_all_ok(parameters) ==> (r matches Err(e) && e
            matches HttpError::InvalidHeader(m) && m@ == headers_err_msg(parameters)),
        is_obj(parameters) && url_ok(parameters) && method_ok(parameters) && headers_shape_ok(
            parameters,
        ) && headers_all_ok(parameters) && !output_ok(parameters) ==> rejects(
            r,
            "output must be 'text' or 'json'"@,
        ),
        descriptor_ok(parameters) && !name_ok(method_view(parameters)) ==> (r matches Err(e) && e
            matches HttpError::Transport(m) && m@ == "invalid method"@),
        descriptor_ok(parameters) && r is Err ==> (r matches Err(e) && (e
            matches HttpError::Transport(_) || e matches HttpError::Decode(_))),
        r is Ok ==> name_ok(method_view(parameters)),
        output_view(parameters) == Output::Text ==> (r matches Ok(v) ==> v matches Dynamic::Str(
            _,
        )),
{
    let p = match validate(parameters) {
        Ok(p) => p,
        Err(e) => {
            return Err(e);
        },
    };
    let output = p.output;
    let raw = match execute(client, p) {
        Ok(raw) => raw,
        Err(e) => {
            return Err(e);
        },
    };
    decode(raw.body, output)
}

} // verus!
