use rhai_http::error::HttpError;
use rhai_http::request::request;
use rhai_http::transport::client;
use rhai_http::value::Dynamic;

fn obj(entries: Vec<(&str, Dynamic)>) -> Dynamic {
    Dynamic::Obj(entries.into_iter().map(|(k, v)| (String::from(k), v)).collect())
}

fn s(text: &str) -> Dynamic {
    Dynamic::Str(String::from(text))
}

#[test]
fn client_can_be_created() {
    assert!(client().is_ok());
}

#[test]
fn missing_url_fails_before_any_exchange() {
    let c = client().unwrap();
    let e = request(&c, obj(vec![("method", s("GET"))])).unwrap_err();
    assert_eq!(e, HttpError::InvalidDescriptor(String::from("url must be a string")));
}

#[test]
fn unknown_output_fails_before_any_exchange() {
    let c = client().unwrap();
    let e = request(
        &c,
        obj(vec![("url", s("http://example.com")), ("output", s("xml"))]),
    )
    .unwrap_err();
    assert_eq!(
        e,
        HttpError::InvalidDescriptor(String::from("output must be 'text' or 'json'"))
    );
}

#[test]
fn bad_method_token_is_a_transport_error() {
    let c = client().unwrap();
    let e = request(
        &c,
        obj(vec![("url", s("http://example.com")), ("method", s("BAD METHOD"))]),
    )
    .unwrap_err();
    assert_eq!(e, HttpError::Transport(String::from("invalid method")));
}

#[test]
fn malformed_url_is_a_transport_error() {
    let c = client().unwrap();
    let e = request(&c, obj(vec![("url", s("::not a url::"))])).unwrap_err();
    assert!(matches!(e, HttpError::Transport(_)));
}

#[test]
fn bad_header_fails_before_any_exchange() {
    let c = client().unwrap();
    let e = request(
        &c,
        obj(vec![
            ("url", s("http://example.com")),
            ("headers", Dynamic::Arr(vec![s("nocolon")])),
        ]),
    )
    .unwrap_err();
    assert_eq!(e, HttpError::InvalidHeader(String::from("nocolon is not a valid header")));
}

#[test]
fn error_message_is_reachable() {
    let e = HttpError::Transport(String::from("boom"));
    assert_eq!(e.message(), "boom");
}
