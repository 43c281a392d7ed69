use rhai_http::descriptor::{validate, Body, Output};
use rhai_http::error::HttpError;
use rhai_http::value::Dynamic;

fn obj(entries: Vec<(&str, Dynamic)>) -> Dynamic {
    Dynamic::Obj(entries.into_iter().map(|(k, v)| (String::from(k), v)).collect())
}

fn s(text: &str) -> Dynamic {
    Dynamic::Str(String::from(text))
}

#[test]
fn missing_url_is_rejected() {
    let e = validate(obj(vec![("method", s("GET"))])).unwrap_err();
    assert_eq!(e, HttpError::InvalidDescriptor(String::from("url must be a string")));
}

#[test]
fn non_string_url_is_rejected() {
    let e = validate(obj(vec![("url", Dynamic::Int(3))])).unwrap_err();
    assert_eq!(e, HttpError::InvalidDescriptor(String::from("url must be a string")));
}

#[test]
fn non_map_input_is_rejected() {
    let e = validate(Dynamic::Str(String::from("http://example.com"))).unwrap_err();
    assert_eq!(e, HttpError::InvalidDescriptor(String::from("parameters must be a map")));
}

#[test]
fn defaults_are_get_text_no_headers_no_body() {
    let p = validate(obj(vec![("url", s("http://example.com"))])).unwrap();
    assert_eq!(p.method, "GET");
    assert_eq!(p.url, "http://example.com");
    assert!(p.headers.is_empty());
    assert_eq!(p.body, Body::Absent);
    assert_eq!(p.output, Output::Text);
}

#[test]
fn non_string_method_is_rejected() {
    let e = validate(obj(vec![("url", s("u")), ("method", Dynamic::Bool(true))])).unwrap_err();
    assert_eq!(e, HttpError::InvalidDescriptor(String::from("method must be a string")));
}

#[test]
fn header_array_is_parsed_in_order() {
    let p = validate(obj(vec![
        ("url", s("u")),
        (
            "headers",
            Dynamic::Arr(vec![s("X-Test: 1"), s("Accept: application/json"), s("X-Test: 2")]),
        ),
    ]))
    .unwrap();
    assert_eq!(
        p.headers,
        vec![
            (String::from("X-Test"), String::from("1")),
            (String::from("Accept"), String::from("application/json")),
            (String::from("X-Test"), String::from("2")),
        ]
    );
}

#[test]
fn header_map_is_taken_as_pairs() {
    let p = validate(obj(vec![
        ("url", s("u")),
        ("headers", obj(vec![("Accept", s("application/json"))])),
    ]))
    .unwrap();
    assert_eq!(p.headers, vec![(String::from("Accept"), String::from("application/json"))]);
}

#[test]
fn non_string_header_entry_uses_its_text() {
    let e = validate(obj(vec![
        ("url", s("u")),
        ("headers", Dynamic::Arr(vec![Dynamic::Int(5)])),
    ]))
    .unwrap_err();
    assert_eq!(e, HttpError::InvalidHeader(String::from("5 is not a valid header")));
}

#[test]
fn first_bad_header_wins() {
    let e = validate(obj(vec![
        ("url", s("u")),
        ("headers", Dynamic::Arr(vec![s("Ok: yes"), s("bad line"), s("also bad")])),
    ]))
    .unwrap_err();
    assert_eq!(e, HttpError::InvalidHeader(String::from("bad line is not a valid header")));
}

#[test]
fn headers_of_wrong_shape_are_rejected() {
    let e = validate(obj(vec![("url", s("u")), ("headers", s("X: 1"))])).unwrap_err();
    assert_eq!(
        e,
        HttpError::InvalidDescriptor(String::from("headers must be an array or a map"))
    );
}

#[test]
fn unknown_output_is_rejected() {
    let e = validate(obj(vec![("url", s("u")), ("output", s("xml"))])).unwrap_err();
    assert_eq!(
        e,
        HttpError::InvalidDescriptor(String::from("output must be 'text' or 'json'"))
    );
}

#[test]
fn output_tokens_are_recognised() {
    let p = validate(obj(vec![("url", s("u")), ("output", s("json"))])).unwrap();
    assert_eq!(p.output, Output::Json);
    let p = validate(obj(vec![("url", s("u")), ("output", s("text"))])).unwrap();
    assert_eq!(p.output, Output::Text);
}

#[test]
fn string_body_is_kept_literal() {
    let p = validate(obj(vec![("url", s("u")), ("body", s("hello"))])).unwrap();
    assert_eq!(p.body, Body::Text(String::from("hello")));
}

#[test]
fn structured_body_is_kept_structured() {
    let p = validate(obj(vec![("url", s("u")), ("body", obj(vec![("a", Dynamic::Int(1))]))]))
        .unwrap();
    assert_eq!(
        p.body,
        Body::Structured(Dynamic::Obj(vec![(String::from("a"), Dynamic::Int(1))]))
    );
}

#[test]
fn first_occurrence_of_a_key_wins() {
    let p = validate(obj(vec![("url", s("first")), ("url", s("second"))])).unwrap();
    assert_eq!(p.url, "first");
}

#[test]
fn validation_order_reports_url_before_output() {
    let e = validate(obj(vec![("output", s("xml"))])).unwrap_err();
    assert_eq!(e, HttpError::InvalidDescriptor(String::from("url must be a string")));
}
