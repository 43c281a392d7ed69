use rhai_http::decode::decode;
use rhai_http::descriptor::Output;
use rhai_http::error::HttpError;
use rhai_http::render::{to_body_text, to_json};
use rhai_http::value::Dynamic;

fn s(text: &str) -> Dynamic {
    Dynamic::Str(String::from(text))
}

#[test]
fn json_object_decodes_to_map() {
    let r = decode(b"{\"a\":1}".to_vec(), Output::Json).unwrap();
    assert_eq!(r, Dynamic::Obj(vec![(String::from("a"), Dynamic::Int(1))]));
}

#[test]
fn malformed_json_is_a_decode_error() {
    let e = decode(b"{a:}".to_vec(), Output::Json).unwrap_err();
    assert!(matches!(e, HttpError::Decode(_)));
}

#[test]
fn echoed_header_appears_in_json_output() {
    let r = decode(b"{\"X-Test\":\"1\"}".to_vec(), Output::Json).unwrap();
    assert_eq!(r, Dynamic::Obj(vec![(String::from("X-Test"), s("1"))]));
}

#[test]
fn json_scalars_and_arrays_decode() {
    assert_eq!(decode(b"null".to_vec(), Output::Json).unwrap(), Dynamic::Null);
    assert_eq!(decode(b"true".to_vec(), Output::Json).unwrap(), Dynamic::Bool(true));
    assert_eq!(decode(b"-7".to_vec(), Output::Json).unwrap(), Dynamic::Int(-7));
    assert_eq!(
        decode(b"[1,\"x\"]".to_vec(), Output::Json).unwrap(),
        Dynamic::Arr(vec![Dynamic::Int(1), s("x")])
    );
}

#[test]
fn non_integral_number_keeps_its_text() {
    let r = decode(b"[2.5]".to_vec(), Output::Json).unwrap();
    assert_eq!(r, Dynamic::Arr(vec![Dynamic::Num(String::from("2.5"))]));
}

#[test]
fn text_output_returns_the_exact_bytes() {
    let r = decode("h\u{e9}llo".as_bytes().to_vec(), Output::Text).unwrap();
    assert_eq!(r, s("h\u{e9}llo"));
}

#[test]
fn invalid_utf8_is_a_decode_error() {
    let e = decode(vec![0xff, 0xfe], Output::Text).unwrap_err();
    assert!(matches!(e, HttpError::Decode(_)));
}

#[test]
fn example_page_body_decodes_byte_for_byte() {
    let page = r##"<!doctype html>
<html>
<head>
    <title>Example Domain</title>

    <meta charset="utf-8" />
    <meta http-equiv="Content-type" content="text/html; charset=utf-8" />
    <meta name="viewport" content="width=device-width, initial-scale=1" />
    <style type="text/css">
    body {
        background-color: #f0f0f2;
        margin: 0;
        padding: 0;
        font-family: -apple-system, system-ui, BlinkMacSystemFont, "Segoe UI", "Open Sans", "Helvetica Neue", Helvetica, Arial, sans-serif;

    }
    div {
        width: 600px;
        margin: 5em auto;
        padding: 2em;
        background-color: #fdfdff;
        border-radius: 0.5em;
        box-shadow: 2px 3px 7px 2px rgba(0,0,0,0.02);
    }
    a:link, a:visited {
        color: #38488f;
        text-decoration: none;
    }
    @media (max-width: 700px) {
        div {
            margin: 0 auto;
            width: auto;
        }
    }
    </style>
</head>

<body>
<div>
    <h1>Example Domain</h1>
    <p>This domain is for use in illustrative examples in documents. You may use this
    domain in literature without prior coordination or asking for permission.</p>
    <p><a href="https://www.iana.org/domains/example">More information...</a></p>
</div>
</body>
</html>
"##;
    let r = decode(page.as_bytes().to_vec(), Output::Text).unwrap();
    assert_eq!(r, Dynamic::Str(String::from(page)));
}

#[test]
fn json_rendering_is_exact() {
    let v = Dynamic::Obj(vec![
        (String::from("a"), Dynamic::Arr(vec![Dynamic::Int(1), s("x\"y")])),
        (String::from("b"), Dynamic::Null),
    ]);
    assert_eq!(to_json(&v), "{\"a\":[1,\"x\\\"y\"],\"b\":null}");
}

#[test]
fn control_characters_are_escaped_in_json_strings() {
    assert_eq!(to_json(&s("a\nb\\c")), "\"a\\u000ab\\\\c\"");
}

#[test]
fn body_text_forms() {
    assert_eq!(to_body_text(&Dynamic::Null), "");
    assert_eq!(to_body_text(&Dynamic::Bool(true)), "true");
    assert_eq!(to_body_text(&Dynamic::Bool(false)), "false");
    assert_eq!(to_body_text(&Dynamic::Int(-42)), "-42");
    assert_eq!(to_body_text(&Dynamic::Int(i64::MIN)), "-9223372036854775808");
    assert_eq!(to_body_text(&Dynamic::Int(0)), "0");
    assert_eq!(to_body_text(&Dynamic::Num(String::from("2.5"))), "2.5");
    assert_eq!(to_body_text(&s("plain")), "plain");
    assert_eq!(
        to_body_text(&Dynamic::Arr(vec![Dynamic::Int(1), Dynamic::Int(2)])),
        "[1,2]"
    );
}

#[test]
fn rendering_then_decoding_json_round_trips() {
    let v = Dynamic::Obj(vec![
        (String::from("k"), Dynamic::Arr(vec![Dynamic::Int(10), Dynamic::Bool(false)])),
    ]);
    let text = to_json(&v);
    let back = decode(text.into_bytes(), Output::Json).unwrap();
    assert_eq!(back, v);
}
