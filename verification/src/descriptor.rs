use vstd::prelude::*;
use vstd::string::StringExecFns;
use crate::error::HttpError;
use crate::header::{
    check_header_pair, header_line_err_msg, header_line_name, header_line_ok, header_line_value,
    name_ok, parse_header_line, value_ok,
};
use crate::render::{body_text_of, to_body_text};
use crate::value::{lookup, Dynamic};

verus! {

/// The caller-requested shape of the decoded response body.
#[derive(Debug, PartialEq, Eq, Clone, Copy)]
pub enum Output {
    Text,
    Json,
}

impl Default for Output {
    /// The output shape when the descriptor names none.
    fn default() -> (r: Self)
        ensures
            r == Output::Text,
    {
        Output::Text
    }
}

/// The request body, resolved once at validation time.
#[derive(Debug, PartialEq, Eq)]
pub enum Body {
    /// No body was given; the empty body is sent.
    Absent,
    /// A string body, sent literally.
    Text(String),
    /// A structured body, sent as its JSON text.
    Structured(Dynamic),
}

/// A validated request description: the typed form of the structured value a
/// caller hands in. Never mutated after validation; consumed by the executor.
#[derive(Debug, PartialEq, Eq)]
pub struct Parameters {
    /// The method token. Not yet resolved against the transport's method
    /// grammar: an unusable token is rejected at execution time.
    pub method: String,
    /// The request URL, as given. Parsed by the transport at execution time.
    pub url: String,
    /// Validated (name, value) pairs, order and duplicates preserved.
    pub headers: Vec<(String, String)>,
    pub body: Body,
    pub output: Output,
}

impl Parameters {
    /// Every held header pair satisfies the header grammar.
    pub open spec fn wf(&self) -> bool {
        forall|i: int|
            0 <= i < self.headers@.len() ==> name_ok(#[trigger] self.headers@[i].0@) && value_ok(
                self.headers@[i].1@,
            )
    }
}

/// The named field of a map-shaped input, first occurrence winning.
pub open spec fn field_of(input: Dynamic, key: Seq<char>) -> Option<Dynamic> {
    lookup(input->Obj_0@, key)
}

/// The input is map-shaped at all.
pub open spec fn is_obj(input: Dynamic) -> bool {
    input matches Dynamic::Obj(_)
}

/// `url` is present and a string.
pub open spec fn url_ok(input: Dynamic) -> bool {
    field_of(input, "url"@) matches Some(Dynamic::Str(_))
}

/// The URL the descriptor carries.
pub open spec fn url_view(input: Dynamic) -> Seq<char> {
    field_of(input, "url"@)->Some_0->Str_0@
}

/// `method` is absent or a string.
pub open spec fn method_ok(input: Dynamic) -> bool {
    match field_of(input, "method"@) {
        Option::None => true,
        Option::Some(v) => v matches Dynamic::Str(_),
    }
}

/// The method token the descriptor carries, `GET` when absent.
pub open spec fn method_view(input: Dynamic) -> Seq<char> {
    match field_of(input, "method"@) {
        Option::Some(Dynamic::Str(m)) => m@,
        _ => "GET"@,
    }
}

/// `headers` is absent, an array, or a map.
pub open spec fn headers_shape_ok(input: Dynamic) -> bool {
    match field_of(input, "headers"@) {
        Option::None => true,
        Option::Some(v) => v matches Dynamic::Arr(_) || v matches Dynamic::Obj(_),
    }
}

/// The message when an explicit (name, value) header pair fails validation.
pub open spec fn pair_err_msg(name: Seq<char>, value: Seq<char>) -> Seq<char> {
    if !name_ok(name) {
        name + " is not a valid header name"@
    } else {
        value + " is not a valid header value"@
    }
}

/// Every header entry of the descriptor passes the header codec. Array
/// entries are raw lines (each entry's textual form is parsed); map entries
/// are explicit pairs (the key is the name, the entry value's textual form is
/// the header value).
pub open spec fn headers_all_ok(input: Dynamic) -> bool {
    match field_of(input, "headers"@) {
        Option::None => true,
        Option::Some(Dynamic::Arr(items)) => forall|i: int|
            0 <= i < items@.len() ==> header_line_ok(body_text_of(#[trigger] items@[i])),
        Option::Some(Dynamic::Obj(pairs)) => forall|i: int|
            0 <= i < pairs@.len() ==> name_ok(#[trigger] pairs@[i].0@) && value_ok(
                body_text_of(pairs@[i].1),
            ),
        _ => false,
    }
}

/// The validated (name, value) pairs the descriptor carries.
pub open spec fn headers_view(input: Dynamic) -> Seq<(Seq<char>, Seq<char>)> {
    match field_of(input, "headers"@) {
        Option::Some(Dynamic::Arr(items)) => Seq::new(
            items@.len(),
            |i: int|
                (
                    header_line_name(body_text_of(items@[i])),
                    header_line_value(body_text_of(items@[i])),
                ),
        ),
        Option::Some(Dynamic::Obj(pairs)) => Seq::new(
            pairs@.len(),
            |i: int| (pairs@[i].0@, body_text_of(pairs@[i].1)),
        ),
        _ => Seq::empty(),
    }
}

/// The held pairs read exactly as the expected ones.
pub open spec fn headers_agree(
    actual: Seq<(String, String)>,
    expected: Seq<(Seq<char>, Seq<char>)>,
) -> bool {
    &&& actual.len() == expected.len()
    &&& forall|i: int|
        0 <= i < actual.len() ==> (#[trigger] actual[i]).0@ == expected[i].0 && actual[i].1@
            == expected[i].1
}

/// The first array entry the header codec rejects.
pub open spec fn first_bad_line(items: Seq<Dynamic>) -> int
    decreases items.len(),
{
    if items.len() == 0 {
        0
    } else if !header_line_ok(body_text_of(items[0])) {
        0
    } else {
        1 + first_bad_line(items.drop_first())
    }
}

/// The first map entry the header codec rejects.
pub open spec fn first_bad_pair(pairs: Seq<(String, Dynamic)>) -> int
    decreases pairs.len(),
{
    if pairs.len() == 0 {
        0
    } else if !(name_ok(pairs[0].0@) && value_ok(body_text_of(pairs[0].1))) {
        0
    } else {
        1 + first_bad_pair(pairs.drop_first())
    }
}

/// The message carried by the `InvalidHeader` error when some header entry
/// fails: the message of the first failing entry.
pub open spec fn headers_err_msg(input: Dynamic) -> Seq<char> {
    match field_of(input, "headers"@) {
        Option::Some(Dynamic::Arr(items)) => header_line_err_msg(
            body_text_of(items@[first_bad_line(items@)]),
        ),
        Option::Some(Dynamic::Obj(pairs)) => pair_err_msg(
            pairs@[first_bad_pair(pairs@)].0@,
            body_text_of(pairs@[first_bad_pair(pairs@)].1),
        ),
        _ => Seq::empty(),
    }
}

/// `output` is absent or one of the two known tokens.
pub open spec fn output_ok(input: Dynamic) -> bool {
    match field_of(input, "output"@) {
        Option::None => true,
        Option::Some(Dynamic::Str(s)) => s@ == "text"@ || s@ == "json"@,
        _ => false,
    }
}

/// The output shape the descriptor requests.
pub open spec fn output_view(input: Dynamic) -> Output {
    match field_of(input, "output"@) {
        Option::Some(Dynamic::Str(s)) => if s@ == "json"@ {
            Output::Json
        } else {
            Output::Text
        },
        _ => Output::Text,
    }
}

/// The body the descriptor carries, resolved to its sum form.
pub open spec fn body_view(input: Dynamic) -> Body {
    match field_of(input, "body"@) {
        Option::None => Body::Absent,
        Option::Some(Dynamic::Str(s)) => Body::Text(s),
        Option::Some(v) => Body::Structured(v),
    }
}

/// The whole descriptor validates.
pub open spec fn descriptor_ok(input: Dynamic) -> bool {
    &&& is_obj(input)
    &&& url_ok(input)
    &&& method_ok(input)
    &&& headers_shape_ok(input)
    &&& headers_all_ok(input)
    &&& output_ok(input)
}

/// `r` is an `InvalidDescriptor` carrying exactly `msg`.
pub open spec fn rejects<T>(r: Result<T, HttpError>, msg: Seq<char>) -> bool {
    r matches Err(e) && e matches HttpError::InvalidDescriptor(m) && m@ == msg
}

proof fn lemma_lookup_snoc(s: Seq<(String, Dynamic)>, e: (String, Dynamic), key: Seq<char>)
    ensures
        lookup(s.push(e), key) == (if lookup(s, key) is Some {
            lookup(s, key)
        } else if e.0@ == key {
            Some(e.1)
        } else {
            None::<Dynamic>
        }),
    decreases s.len(),
{
    if s.len() == 0 {
        assert(s.push(e).drop_first() =~= s);
    } else {
        assert(s.push(e).drop_first() =~= s.drop_first().push(e));
        lemma_lookup_snoc(s.drop_first(), e, key);
    }
}

proof fn lemma_first_bad_line_unique(items: Seq<Dynamic>, i: int)
    requires
        0 <= i <= items.len(),
        forall|k: int| 0 <= k < i ==> header_line_ok(body_text_of(#[trigger] items[k])),
        i < items.len() ==> !header_line_ok(body_text_of(items[i])),
    ensures
        i == first_bad_line(items) || (i == items.len() && first_bad_line(items) >= items.len()),
    decreases items.len(),
{
    if items.len() == 0 {
    } else if !header_line_ok(body_text_of(items[0])) {
    } else {
        assert(i > 0);
        let t = items.drop_first();
        assert forall|k: int| 0 <= k < i - 1 implies header_line_ok(
            body_text_of(#[trigger] t[k]),
        ) by {
            assert(t[k] == items[k + 1]);
        }
        lemma_first_bad_line_unique(t, i - 1);
    }
}

proof fn lemma_first_bad_pair_unique(pairs: Seq<(String, Dynamic)>, i: int)
    requires
        0 <= i <= pairs.len(),
        forall|k: int|
            0 <= k < i ==> name_ok((#[trigger] pairs[k]).0@) && value_ok(
                body_text_of(pairs[k].1),
            ),
        i < pairs.len() ==> !(name_ok(pairs[i].0@) && value_ok(body_text_of(pairs[i].1))),
    ensures
        i == first_bad_pair(pairs) || (i == pairs.len() && first_bad_pair(pairs) >= pairs.len()),
    decreases pairs.len(),
{
    if pairs.len() == 0 {
    } else if !(name_ok(pairs[0].0@) && value_ok(body_text_of(pairs[0].1))) {
    } else {
        assert(i > 0);
        let t = pairs.drop_first();
        assert forall|k: int| 0 <= k < i - 1 implies name_ok((#[trigger] t[k]).0@) && value_ok(
            body_text_of(t[k].1),
        ) by {
            assert(t[k] == pairs[k + 1]);
        }
        lemma_first_bad_pair_unique(t, i - 1);
    }
}

/// Validate a structured descriptor into typed [`Parameters`], or reject it.
///
/// Checks run in a fixed order: the map shape, then `url`, `method`,
/// `headers` (each entry through the header codec, first failure winning),
/// `output`. `body` accepts any value. Nothing here touches the network.
#[verifier::loop_isolation(false)]
#[verifier::rlimit(30)]
pub fn validate(input: Dynamic) -> (r: Result<Parameters, HttpError>)
    ensures
        r is Ok <==> descriptor_ok(input),
        r matches Ok(p) ==> {
            &&& p.url@ == url_view(input)
            &&& p.method@ == method_view(input)
            &&& headers_agree(p.headers@, headers_view(input))
            &&& p.body == body_view(input)
            &&& p.output == output_view(input)
            &&& p.wf()
        },
        !is_obj(input) ==> rejects(r, "parameters must be a map"@),
        is_obj(input) && !url_ok(input) ==> rejects(r, "url must be a string"@),
        is_obj(input) && url_ok(input) && !method_ok(input) ==> rejects(
            r,
            "method must be a string"@,
        ),
        is_obj(input) && url_ok(input) && method_ok(input) && !headers_shape_ok(input)
            ==> rejects(r, "headers must be an array or a map"@),
        is_obj(input) && url_ok(input) && method_ok(input) && headers_shape_ok(input)
            && !headers_all_ok(input) ==> (r matches Err(e) && e matches HttpError::InvalidHeader(
            m,
        ) && m@ == headers_err_msg(input)),
        is_obj(input) && url_ok(input) && method_ok(input) && headers_shape_ok(input)
            && headers_all_ok(input) && !output_ok(input) ==> rejects(
            r,
            "output must be 'text' or 'json'"@,
        ),
{
    proof {
        reveal_strlit("url");
        reveal_strlit("method");
        reveal_strlit("headers");
        reveal_strlit("body");
        reveal_strlit("output");
    }
    let mut entries = match input {
        Dynamic::Obj(entries) => entries,
        _ => {
            return Err(
                HttpError::InvalidDescriptor(String::from_str("parameters must be a map")),
            );
        },
    };
    let ghost all = entries@;
    let url_key = String::from_str("url");
    let method_key = String::from_str("method");
    let headers_key = String::from_str("headers");
    let body_key = String::from_str("body");
    let output_key = String::from_str("output");
    let mut url_v: Option<Dynamic> = None;
    let mut method_v: Option<Dynamic> = None;
    let mut headers_v: Option<Dynamic> = None;
    let mut body_v: Option<Dynamic> = None;
    let mut output_v: Option<Dynamic> = None;
    while entries.len() > 0
        invariant
            entries@.len() <= all.len(),
            entries@ =~= all.take(entries@.len() as int),
            (if lookup(entries@, "url"@) is Some {
                lookup(entries@, "url"@)
            } else {
                url_v
            }) == lookup(all, "url"@),
            (if lookup(entries@, "method"@) is Some {
                lookup(entries@, "method"@)
            } else {
                method_v
            }) == lookup(all, "method"@),
            (if lookup(entries@, "headers"@) is Some {
                lookup(entries@, "headers"@)
            } else {
                headers_v
            }) == lookup(all, "headers"@),
            (if lookup(entries@, "body"@) is Some {
                lookup(entries@, "body"@)
            } else {
                body_v
            }) == lookup(all, "body"@),
            (if lookup(entries@, "output"@) is Some {
                lookup(entries@, "output"@)
            } else {
                output_v
            }) == lookup(all, "output"@),
        decreases entries@.len(),
    {
        let ghost before = entries@;
        let pair = entries.pop().unwrap();
        proof {
            reveal_strlit("url");
            reveal_strlit("method");
            reveal_strlit("headers");
            reveal_strlit("body");
            reveal_strlit("output");
            assert(before =~= entries@.push(pair));
            lemma_lookup_snoc(entries@, pair, "url"@);
            lemma_lookup_snoc(entries@, pair, "method"@);
            lemma_lookup_snoc(entries@, pair, "headers"@);
            lemma_lookup_snoc(entries@, pair, "body"@);
            lemma_lookup_snoc(entries@, pair, "output"@);
            assert(before == all.take(before.len() as int));
            assert forall|j: int| 0 <= j < before.len() - 1 implies before.drop_last()[j]
                == all.take(before.len() - 1)[j] by {
                assert(before.drop_last()[j] == before[j]);
                assert(all.take(before.len() as int)[j] == all[j]);
                assert(all.take(before.len() - 1)[j] == all[j]);
            }
            assert(before.drop_last() =~= all.take(before.len() - 1));
            assert(entries@ =~= all.take(entries@.len() as int));
        }
        let (k, v) = pair;
        if k == url_key {
            url_v = Some(v);
        } else if k == method_key {
            method_v = Some(v);
        } else if k == headers_key {
            headers_v = Some(v);
        } else if k == body_key {
            body_v = Some(v);
        } else if k == output_key {
            output_v = Some(v);
        }
        proof {
            assert("url"@.len() == 3 && "method"@.len() == 6 && "headers"@.len() == 7 && "body"@.len()
                == 4 && "output"@.len() == 6) by {
                reveal_strlit("url");
                reveal_strlit("method");
                reveal_strlit("headers");
                reveal_strlit("body");
                reveal_strlit("output");
            }
            assert("method"@[0] == 'm' && "output"@[0] == 'o') by {
                reveal_strlit("method");
                reveal_strlit("output");
            }
            assert("method"@ != "output"@);
            if pair.0@ == "url"@ {
                assert(url_v == Some(pair.1));
            }
            if pair.0@ == "method"@ {
                assert(method_v == Some(pair.1));
            }
            if pair.0@ == "headers"@ {
                assert(headers_v == Some(pair.1));
            }
            if pair.0@ == "body"@ {
                assert(body_v == Some(pair.1));
            }
            if pair.0@ == "output"@ {
                assert(output_v == Some(pair.1));
            }
        }
    }
    proof {
        assert(all.take(0) =~= Seq::<(String, Dynamic)>::empty());
    }
    let url = match url_v {
        Some(Dynamic::Str(u)) => u,
        _ => {
            return Err(HttpError::InvalidDescriptor(String::from_str("url must be a string")));
        },
    };
    let method = match method_v {
        None => String::from_str("GET"),
        Some(Dynamic::Str(m)) => m,
        Some(_) => {
            return Err(
                HttpError::InvalidDescriptor(String::from_str("method must be a string")),
            );
        },
    };
    let headers: Vec<(String, String)> = match headers_v {
        None => Vec::new(),
        Some(Dynamic::Arr(items)) => {
            let mut out: Vec<(String, String)> = Vec::new();
            let mut i: usize = 0;
            while i < items.len()
                invariant
                    0 <= i <= items@.len(),
                    out@.len() == i,
                    forall|k: int|
                        0 <= k < i ==> header_line_ok(body_text_of(#[trigger] items@[k])),
                    forall|k: int|
                        0 <= k < i ==> (#[trigger] out@[k]).0@ == header_line_name(
                            body_text_of(items@[k]),
                        ) && out@[k].1@ == header_line_value(body_text_of(items@[k])),
                decreases items@.len() - i,
            {
                let line = to_body_text(&items[i]);
                match parse_header_line(line.as_str()) {
                    Ok(p) => {
                        out.push(p);
                    },
                    Err(e) => {
                        proof {
                            lemma_first_bad_line_unique(items@, i as int);
                        }
                        return Err(e);
                    },
                }
                i = i + 1;
            }
            out
        },
        Some(Dynamic::Obj(pairs)) => {
            let mut out: Vec<(String, String)> = Vec::new();
            let mut i: usize = 0;
            while i < pairs.len()
                invariant
                    0 <= i <= pairs@.len(),
                    out@.len() == i,
                    forall|k: int|
                        0 <= k < i ==> name_ok((#[trigger] pairs@[k]).0@) && value_ok(
                            body_text_of(pairs@[k].1),
                        ),
                    forall|k: int|
                        0 <= k < i ==> (#[trigger] out@[k]).0@ == pairs@[k].0@ && out@[k].1@
                            == body_text_of(pairs@[k].1),
                decreases pairs@.len() - i,
            {
                let vt = to_body_text(&pairs[i].1);
                match check_header_pair(pairs[i].0.as_str(), vt.as_str()) {
                    Ok(p) => {
                        out.push(p);
                    },
                    Err(e) => {
                        proof {
                            lemma_first_bad_pair_unique(pairs@, i as int);
                        }
                        return Err(e);
                    },
                }
                i = i + 1;
            }
            out
        },
        Some(_) => {
            return Err(
                HttpError::InvalidDescriptor(
                    String::from_str("headers must be an array or a map"),
                ),
            );
        },
    };
    proof {
        assert("text"@.len() == 4 && "json"@.len() == 4 && "text"@[0] == 't' && "json"@[0]
            == 'j') by {
            reveal_strlit("text");
            reveal_strlit("json");
        }
        assert("text"@ != "json"@);
    }
    let output = match output_v {
        None => Output::Text,
        Some(Dynamic::Str(s)) => {
            if s == text_token() {
                Output::Text
            } else if s == json_token() {
                Output::Json
            } else {
                return Err(
                    HttpError::InvalidDescriptor(
                        String::from_str("output must be 'text' or 'json'"),
                    ),
                );
            }
        },
        Some(_) => {
            return Err(
                HttpError::InvalidDescriptor(String::from_str("output must be 'text' or 'json'")),
            );
        },
    };
    let body = match body_v {
        None => Body::Absent,
        Some(Dynamic::Str(s)) => Body::Text(s),
        Some(v) => Body::Structured(v),
    };
    Ok(Parameters { method, url, headers, body, output })
}

/// The `output` token requesting plain text.
fn text_token() -> (r: String)
    ensures
        r@ == "text"@,
{
    String::from_str("text")
}

/// The `output` token requesting structured JSON.
fn json_token() -> (r: String)
    ensures
        r@ == "json"@,
{
    String::from_str("json")
}

} // verus!
