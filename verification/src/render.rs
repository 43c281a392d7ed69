use vstd::prelude::*;
use vstd::string::StrSliceExecFns;
use vstd::string::StringExecFns;
use crate::text::{i64_to_text, int_text_of, push_char};
use crate::value::Dynamic;

verus! {

broadcast use vstd::std_specs::vec::group_vec_axioms;

/// The lower-case hex digit character for `d`.
pub open spec fn hex_digit(d: int) -> char {
    if d == 0 {
        '0'
    } else if d == 1 {
        '1'
    } else if d == 2 {
        '2'
    } else if d == 3 {
        '3'
    } else if d == 4 {
        '4'
    } else if d == 5 {
        '5'
    } else if d == 6 {
        '6'
    } else if d == 7 {
        '7'
    } else if d == 8 {
        '8'
    } else if d == 9 {
        '9'
    } else if d == 10 {
        'a'
    } else if d == 11 {
        'b'
    } else if d == 12 {
        'c'
    } else if d == 13 {
        'd'
    } else if d == 14 {
        'e'
    } else {
        'f'
    }
}

/// How one character is written inside a JSON string literal: quote and
/// backslash are escaped, control characters take the `\u00XX` form, and
/// everything else stands for itself.
pub open spec fn esc_char(c: char) -> Seq<char> {
    if c == '"' {
        seq!['\\', '"']
    } else if c == '\\' {
        seq!['\\', '\\']
    } else if (c as u32) < 0x20 {
        seq!['\\', 'u', '0', '0', hex_digit((c as u32) as int / 16), hex_digit((c as u32) as int % 16)]
    } else {
        seq![c]
    }
}

/// The body of a JSON string literal for `s`: each character escaped.
pub open spec fn esc_str(s: Seq<char>) -> Seq<char>
    decreases s,
{
    if s.len() == 0 {
        Seq::empty()
    } else {
        esc_str(s.drop_last()) + esc_char(s.last())
    }
}

/// The JSON string literal for `s`, quotes included.
pub open spec fn json_str_of(s: Seq<char>) -> Seq<char> {
    seq!['"'] + esc_str(s) + seq!['"']
}

/// The JSON text of a value.
pub open spec fn json_of(v: Dynamic) -> Seq<char>
    decreases v,
{
    match v {
        Dynamic::Null => "null"@,
        Dynamic::Bool(b) => if b {
            "true"@
        } else {
            "false"@
        },
        Dynamic::Int(i) => int_text_of(i as int),
        Dynamic::Num(s) => s@,
        Dynamic::Str(s) => json_str_of(s@),
        Dynamic::Arr(items) => seq!['['] + json_of_list(items@) + seq![']'],
        Dynamic::Obj(entries) => seq!['{'] + json_of_obj(entries@) + seq!['}'],
    }
}

/// The comma-separated JSON texts of the elements of an array.
pub open spec fn json_of_list(elems: Seq<Dynamic>) -> Seq<char>
    decreases elems,
{
    if elems.len() == 0 {
        Seq::empty()
    } else if elems.len() == 1 {
        json_of(elems[0])
    } else {
        json_of_list(elems.drop_last()) + seq![','] + json_of(elems.last())
    }
}

/// One `"key":value` member of a JSON object.
pub open spec fn json_member_of(entry: (String, Dynamic)) -> Seq<char>
    decreases entry,
{
    json_str_of(entry.0@) + seq![':'] + json_of(entry.1)
}

/// The comma-separated members of a JSON object.
pub open spec fn json_of_obj(entries: Seq<(String, Dynamic)>) -> Seq<char>
    decreases entries,
{
    if entries.len() == 0 {
        Seq::empty()
    } else if entries.len() == 1 {
        json_member_of(entries[0])
    } else {
        json_of_obj(entries.drop_last()) + seq![','] + json_member_of(entries.last())
    }
}

/// The textual body representation of a value: strings stand for themselves,
/// the absent value for the empty body, and structured values for their JSON
/// text.
pub open spec fn body_text_of(v: Dynamic) -> Seq<char> {
    match v {
        Dynamic::Null => Seq::empty(),
        Dynamic::Bool(b) => if b {
            "true"@
        } else {
            "false"@
        },
        Dynamic::Int(i) => int_text_of(i as int),
        Dynamic::Num(s) => s@,
        Dynamic::Str(s) => s@,
        Dynamic::Arr(_) => json_of(v),
        Dynamic::Obj(_) => json_of(v),
    }
}

fn hex_digit_exec(d: u32) -> (c: char)
    requires
        d < 16,
    ensures
        c == hex_digit(d as int),
{
    if d == 0 {
        '0'
    } else if d == 1 {
        '1'
    } else if d == 2 {
        '2'
    } else if d == 3 {
        '3'
    } else if d == 4 {
        '4'
    } else if d == 5 {
        '5'
    } else if d == 6 {
        '6'
    } else if d == 7 {
        '7'
    } else if d == 8 {
        '8'
    } else if d == 9 {
        '9'
    } else if d == 10 {
        'a'
    } else if d == 11 {
        'b'
    } else if d == 12 {
        'c'
    } else if d == 13 {
        'd'
    } else if d == 14 {
        'e'
    } else {
        'f'
    }
}

/// Render `s` as a JSON string literal, quotes and escapes included.
pub fn json_quote(s: &str) -> (r: String)
    ensures
        r@ == json_str_of(s@),
{
    let len = s.unicode_len();
    let mut r = String::new();
    push_char(&mut r, '"');
    let mut i: usize = 0;
    while i < len
        invariant
            0 <= i <= len,
            len == s@.len(),
            r@ == seq!['"'] + esc_str(s@.take(i as int)),
        decreases len - i,
    {
        let ghost r0 = r@;
        let c = s.get_char(i);
        if c == '"' {
            push_char(&mut r, '\\');
            push_char(&mut r, '"');
        } else if c == '\\' {
            push_char(&mut r, '\\');
            push_char(&mut r, '\\');
        } else if (c as u32) < 0x20 {
            let u = c as u32;
            push_char(&mut r, '\\');
            push_char(&mut r, 'u');
            push_char(&mut r, '0');
            push_char(&mut r, '0');
            push_char(&mut r, hex_digit_exec(u / 16));
            push_char(&mut r, hex_digit_exec(u % 16));
        } else {
            push_char(&mut r, c);
        }
        proof {
            assert(r@ =~= r0 + esc_char(s@[i as int]));
            assert(s@.take(i + 1).drop_last() =~= s@.take(i as int));
            assert(s@.take(i + 1).last() == s@[i as int]);
        }
        i = i + 1;
    }
    push_char(&mut r, '"');
    proof {
        assert(s@.take(len as int) =~= s@);
        assert(r@ =~= json_str_of(s@));
    }
    r
}

/// Render `v` as JSON text.
#[verifier::loop_isolation(false)]
pub fn to_json(v: &Dynamic) -> (r: String)
    ensures
        r@ == json_of(*v),
    decreases *v,
{
    match v {
        Dynamic::Null => String::from_str("null"),
        Dynamic::Bool(b) => if *b {
            String::from_str("true")
        } else {
            String::from_str("false")
        },
        Dynamic::Int(i) => i64_to_text(*i),
        Dynamic::Num(s) => s.clone(),
        Dynamic::Str(s) => json_quote(s.as_str()),
        Dynamic::Arr(items) => {
            let mut r = String::new();
            push_char(&mut r, '[');
            proof {
                assert(r@ =~= seq!['[']);
            }
            let mut idx: usize = 0;
            while idx < items.len()
                invariant
                    0 <= idx <= items.len(),
                    r@ == seq!['['] + json_of_list(items@.take(idx as int)),
                decreases items.len() - idx,
            {
                if idx > 0 {
                    push_char(&mut r, ',');
                }
                proof {
                    assert(decreases_to!(*v => *items));
                    assert(decreases_to!(*items => items@));
                    assert(decreases_to!(items@ => items@[idx as int]));
                }
                let piece = to_json(&items[idx]);
                r.append(piece.as_str());
                proof {
                    assert(items@.take(idx + 1).drop_last() =~= items@.take(idx as int));
                    assert(items@.take(idx + 1).last() == items@[idx as int]);
                    assert(r@ =~= seq!['['] + json_of_list(items@.take(idx + 1)));
                }
                idx = idx + 1;
            }
            push_char(&mut r, ']');
            proof {
                assert(items@.take(items@.len() as int) =~= items@);
                assert(r@ =~= json_of(*v));
            }
            r
        },
        Dynamic::Obj(entries) => {
            let mut r = String::new();
            push_char(&mut r, '{');
            proof {
                assert(r@ =~= seq!['{']);
            }
            let mut idx: usize = 0;
            while idx < entries.len()
                invariant
                    0 <= idx <= entries.len(),
                    r@ == seq!['{'] + json_of_obj(entries@.take(idx as int)),
                decreases entries.len() - idx,
            {
                if idx > 0 {
                    push_char(&mut r, ',');
                }
                let key = json_quote(entries[idx].0.as_str());
                r.append(key.as_str());
                push_char(&mut r, ':');
                proof {
                    assert(decreases_to!(*v => *entries));
                    assert(decreases_to!(*entries => entries@));
                    assert(decreases_to!(entries@ => entries@[idx as int]));
                    assert(decreases_to!(entries@[idx as int] => entries@[idx as int].1));
                }
                let piece = to_json(&entries[idx].1);
                r.append(piece.as_str());
                proof {
                    assert(entries@.take(idx + 1).drop_last() =~= entries@.take(idx as int));
                    assert(entries@.take(idx + 1).last() == entries@[idx as int]);
                    assert(json_member_of(entries@[idx as int]) == json_str_of(
                        entries@[idx as int].0@,
                    ) + seq![':'] + json_of(entries@[idx as int].1));
                    assert(r@ =~= seq!['{'] + json_of_obj(entries@.take(idx + 1)));
                }
                idx = idx + 1;
            }
            push_char(&mut r, '}');
            proof {
                assert(entries@.take(entries@.len() as int) =~= entries@);
                assert(r@ =~= json_of(*v));
            }
            r
        },
    }
}

/// Render `v` in its textual body form (see [`body_text_of`]).
pub fn to_body_text(v: &Dynamic) -> (r: String)
    ensures
        r@ == body_text_of(*v),
{
    match v {
        Dynamic::Null => String::new(),
        Dynamic::Bool(b) => if *b {
            String::from_str("true")
        } else {
            String::from_str("false")
        },
        Dynamic::Int(i) => i64_to_text(*i),
        Dynamic::Num(s) => s.clone(),
        Dynamic::Str(s) => s.clone(),
        Dynamic::Arr(_) => to_json(v),
        Dynamic::Obj(_) => to_json(v),
    }
}

} // verus!
