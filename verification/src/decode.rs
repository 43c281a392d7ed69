use vstd::prelude::*;
use vstd::utf8::{decode_utf8, encode_utf8, valid_utf8};
use crate::descriptor::Output;
use crate::error::HttpError;
use crate::value::Dynamic;

verus! {

/// The value tree a byte body parses to as one JSON document, if it parses:
/// the result of the JSON grammar on exactly these bytes. Objects keep the
/// parser's key order; integral numbers come back as integers, any other
/// number as its decimal text.
pub uninterp spec fn json_tree(bytes: Seq<u8>) -> Option<Dynamic>;

/// Relies on `String::from_utf8` from std: it succeeds exactly on valid
/// UTF-8 and returns the decoded characters.
#[verifier::external_body]
fn string_from_utf8(bytes: Vec<u8>) -> (r: Result<String, String>)
    ensures
        r is Ok <==> valid_utf8(bytes@),
        r matches Ok(s) ==> s@ == decode_utf8(bytes@),
{
    match String::from_utf8(bytes) {
        Ok(s) => Ok(s),
        Err(e) => Err(e.to_string()),
    }
}

/// Relies on the variants of `serde_json::Value`: moves each parsed node
/// into the library's value shape, one arm per variant.
#[verifier::external_body]
fn tree_of_json(v: serde_json::Value) -> Dynamic {
    match v {
        serde_json::Value::Null => Dynamic::Null,
        serde_json::Value::Bool(b) => Dynamic::Bool(b),
        serde_json::Value::Number(n) => match n.as_i64() {
            Some(i) => Dynamic::Int(i),
            None => Dynamic::Num(n.to_string()),
        },
        serde_json::Value::String(s) => Dynamic::Str(s),
        serde_json::Value::Array(a) => Dynamic::Arr(a.into_iter().map(tree_of_json).collect()),
        serde_json::Value::Object(o) => Dynamic::Obj(
            o.into_iter().map(|(k, w)| (k, tree_of_json(w))).collect(),
        ),
    }
}

/// Relies on `serde_json::from_slice`: parses the whole byte body as one
/// JSON document, deterministically from the bytes alone; a parse failure
/// comes back as the parser's message.
#[verifier::external_body]
fn parse_json(bytes: &Vec<u8>) -> (r: Result<Dynamic, String>)
    ensures
        r is Ok <==> json_tree(bytes@) is Some,
        r matches Ok(v) ==> json_tree(bytes@) == Some(v),
{
    match serde_json::from_slice::<serde_json::Value>(bytes.as_slice()) {
        Ok(v) => Ok(tree_of_json(v)),
        Err(e) => Err(e.to_string()),
    }
}

/// Decode a raw response body into the requested output shape. The whole
/// body is consumed; on failure nothing partial is exposed.
pub fn decode(body: Vec<u8>, output: Output) -> (r: Result<Dynamic, HttpError>)
    ensures
        output == Output::Text ==> {
            &&& r is Ok <==> valid_utf8(body@)
            &&& (r matches Ok(v) ==> v matches Dynamic::Str(s) && s@ == decode_utf8(body@))
            &&& (r matches Err(e) ==> e matches HttpError::Decode(_))
        },
        output == Output::Json ==> {
            &&& r is Ok <==> json_tree(body@) is Some
            &&& (r matches Ok(v) ==> json_tree(body@) == Some(v))
            &&& (r matches Err(e) ==> e matches HttpError::Decode(_))
        },
{
    match output {
        Output::Text => match string_from_utf8(body) {
            Ok(s) => Ok(Dynamic::Str(s)),
            Err(m) => Err(HttpError::Decode(m)),
        },
        Output::Json => match parse_json(&body) {
            Ok(v) => Ok(v),
            Err(m) => Err(HttpError::Decode(m)),
        },
    }
}

/// Text decoding is exact: a body holding the UTF-8 encoding of some
/// characters is valid and decodes back to exactly those characters. Against
/// a transport that echoes what was sent, executing and then decoding as
/// text therefore returns the characters that were sent.
pub proof fn lemma_text_round_trip(chars: Seq<char>)
    ensures
        valid_utf8(encode_utf8(chars)),
        decode_utf8(encode_utf8(chars)) == chars,
{
    vstd::utf8::encode_utf8_valid_utf8(chars);
    vstd::utf8::encode_utf8_decode_utf8(chars);
}

} // verus!
