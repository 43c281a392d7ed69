use rhai_http::error::HttpError;
use rhai_http::header::{check_header_pair, parse_header_line};

#[test]
fn parses_simple_line() {
    let r = parse_header_line("Accept: application/json").unwrap();
    assert_eq!(r.0, "Accept");
    assert_eq!(r.1, "application/json");
}

#[test]
fn trims_both_sides() {
    let r = parse_header_line("  X-Test :  1  ").unwrap();
    assert_eq!(r.0, "X-Test");
    assert_eq!(r.1, "1");
}

#[test]
fn splits_at_first_colon_only() {
    let r = parse_header_line("Host: example.com:8080").unwrap();
    assert_eq!(r.0, "Host");
    assert_eq!(r.1, "example.com:8080");
}

#[test]
fn empty_value_is_allowed() {
    let r = parse_header_line("X-Empty:").unwrap();
    assert_eq!(r.0, "X-Empty");
    assert_eq!(r.1, "");
}

#[test]
fn line_without_colon_is_rejected_naming_it() {
    let e = parse_header_line("no separator here").unwrap_err();
    assert_eq!(
        e,
        HttpError::InvalidHeader(String::from("no separator here is not a valid header"))
    );
}

#[test]
fn control_character_in_name_is_rejected() {
    let e = parse_header_line("X-\u{1}Bad: v").unwrap_err();
    assert!(matches!(e, HttpError::InvalidHeader(_)));
}

#[test]
fn control_character_in_value_is_rejected() {
    let e = parse_header_line("X-Test: a\u{0}b").unwrap_err();
    assert!(matches!(e, HttpError::InvalidHeader(_)));
}

#[test]
fn space_inside_name_is_rejected() {
    let e = parse_header_line("Bad Name: v").unwrap_err();
    assert_eq!(
        e,
        HttpError::InvalidHeader(String::from("Bad Name is not a valid header name"))
    );
}

#[test]
fn pair_form_validates_without_trimming() {
    let r = check_header_pair("X-Test", "a b").unwrap();
    assert_eq!(r.0, "X-Test");
    assert_eq!(r.1, "a b");
    let e = check_header_pair("X Test", "v").unwrap_err();
    assert_eq!(
        e,
        HttpError::InvalidHeader(String::from("X Test is not a valid header name"))
    );
    let e = check_header_pair("X-Test", "a\u{7f}b").unwrap_err();
    assert_eq!(
        e,
        HttpError::InvalidHeader(String::from("a\u{7f}b is not a valid header value"))
    );
}

#[test]
fn empty_name_is_rejected() {
    let e = parse_header_line(" : v").unwrap_err();
    assert_eq!(
        e,
        HttpError::InvalidHeader(String::from(" is not a valid header name"))
    );
}
