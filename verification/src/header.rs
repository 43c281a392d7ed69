use vstd::prelude::*;
use vstd::string::StrSliceExecFns;
use crate::error::HttpError;
use crate::text::{
    check_tchar, check_value_char, is_tchar, is_value_char, trim, trim_view,
};

verus! {

/// A valid header name: at least one character, all of them HTTP token
/// characters.
pub open spec fn name_ok(s: Seq<char>) -> bool {
    s.len() > 0 && forall|i: int| 0 <= i < s.len() ==> is_tchar(#[trigger] s[i])
}

/// A valid header value: every character visible ASCII, space or tab.
pub open spec fn value_ok(s: Seq<char>) -> bool {
    forall|i: int| 0 <= i < s.len() ==> is_value_char(#[trigger] s[i])
}

/// A control character in the sense of the header grammar.
pub open spec fn is_control(c: char) -> bool {
    (c as u32) < 0x20 || (c as u32) == 0x7F
}

/// A header name containing any control character is never valid.
pub proof fn lemma_control_char_rejected_in_name(name: Seq<char>, i: int)
    requires
        0 <= i < name.len(),
        is_control(name[i]),
    ensures
        !name_ok(name),
{
    assert(!is_tchar(name[i]));
}

/// A header value containing a control character other than tab is never
/// valid (tab is the one control character the value grammar allows).
pub proof fn lemma_control_char_rejected_in_value(value: Seq<char>, i: int)
    requires
        0 <= i < value.len(),
        is_control(value[i]),
        (value[i] as u32) != 0x09,
    ensures
        !value_ok(value),
{
    assert(!is_value_char(value[i]));
}

/// The index of the first colon in `s`, or `s.len()` if there is none.
pub open spec fn first_colon(s: Seq<char>) -> int
    decreases s.len(),
{
    if s.len() == 0 {
        0
    } else if s[0] == ':' {
        0
    } else {
        1 + first_colon(s.drop_first())
    }
}

proof fn lemma_first_colon_unique(s: Seq<char>, i: int)
    requires
        0 <= i <= s.len(),
        forall|k: int| 0 <= k < i ==> #[trigger] s[k] != ':',
        i < s.len() ==> s[i] == ':',
    ensures
        i == first_colon(s),
    decreases s.len(),
{
    if s.len() == 0 || s[0] == ':' {
    } else {
        assert(i > 0);
        let t = s.drop_first();
        assert forall|k: int| 0 <= k < i - 1 implies #[trigger] t[k] != ':' by {
            assert(t[k] == s[k + 1]);
        }
        lemma_first_colon_unique(t, i - 1);
    }
}

/// Whether the raw header line `s` parses and validates: it has a colon, the
/// part before the first colon trims to a valid name, and the part after it
/// trims to a valid value.
pub open spec fn header_line_ok(s: Seq<char>) -> bool {
    &&& first_colon(s) < s.len()
    &&& name_ok(header_line_name(s))
    &&& value_ok(header_line_value(s))
}

/// The name a raw header line carries: what precedes the first colon, trimmed.
pub open spec fn header_line_name(s: Seq<char>) -> Seq<char> {
    trim_view(s.take(first_colon(s)))
}

/// The value a raw header line carries: what follows the first colon, trimmed.
pub open spec fn header_line_value(s: Seq<char>) -> Seq<char> {
    trim_view(s.skip(first_colon(s) + 1))
}

/// The message the codec reports for a rejected raw line `s`: the missing
/// colon is named first, then an invalid name, then an invalid value.
pub open spec fn header_line_err_msg(s: Seq<char>) -> Seq<char> {
    if first_colon(s) == s.len() {
        s + " is not a valid header"@
    } else if !name_ok(header_line_name(s)) {
        header_line_name(s) + " is not a valid header name"@
    } else {
        header_line_value(s) + " is not a valid header value"@
    }
}

/// Exec check for [`name_ok`].
pub fn check_name(s: &str) -> (b: bool)
    ensures
        b == name_ok(s@),
{
    let len = s.unicode_len();
    if len == 0 {
        return false;
    }
    let mut i: usize = 0;
    while i < len
        invariant
            0 <= i <= len,
            len == s@.len(),
            forall|k: int| 0 <= k < i ==> is_tchar(#[trigger] s@[k]),
        decreases len - i,
    {
        if !check_tchar(s.get_char(i)) {
            return false;
        }
        i = i + 1;
    }
    true
}

/// Exec check for [`value_ok`].
pub fn check_value(s: &str) -> (b: bool)
    ensures
        b == value_ok(s@),
{
    let len = s.unicode_len();
    let mut i: usize = 0;
    while i < len
        invariant
            0 <= i <= len,
            len == s@.len(),
            forall|k: int| 0 <= k < i ==> is_value_char(#[trigger] s@[k]),
        decreases len - i,
    {
        if !check_value_char(s.get_char(i)) {
            return false;
        }
        i = i + 1;
    }
    true
}

/// Append `suffix` to an owned copy of `prefix`.
fn concat_str(prefix: &str, suffix: &str) -> (r: String)
    ensures
        r@ == prefix@ + suffix@,
{
    let mut r = prefix.to_owned();
    r.append(suffix);
    r
}

/// Validate an explicit (name, value) pair against the header grammar.
/// No trimming is applied: the pair is taken as given.
pub fn check_header_pair(name: &str, value: &str) -> (r: Result<(String, String), HttpError>)
    ensures
        name_ok(name@) && value_ok(value@) ==> (r matches Ok(p) && p.0@ == name@ && p.1@
            == value@),
        !name_ok(name@) ==> (r matches Err(e) && e matches HttpError::InvalidHeader(m) && m@
            == name@ + " is not a valid header name"@),
        name_ok(name@) && !value_ok(value@) ==> (r matches Err(e) && e
            matches HttpError::InvalidHeader(m) && m@ == value@
            + " is not a valid header value"@),
{
    if !check_name(name) {
        return Err(HttpError::InvalidHeader(concat_str(name, " is not a valid header name")));
    }
    if !check_value(value) {
        return Err(HttpError::InvalidHeader(concat_str(value, " is not a valid header value")));
    }
    Ok((name.to_owned(), value.to_owned()))
}

/// Parse one raw `Name: Value` header line: split at the first colon, trim
/// both sides, and validate each side against the header grammar. A line
/// without a colon is rejected with a message naming the line itself.
pub fn parse_header_line(s: &str) -> (r: Result<(String, String), HttpError>)
    ensures
        header_line_ok(s@) ==> (r matches Ok(p) && p.0@ == header_line_name(s@) && p.1@
            == header_line_value(s@)),
        first_colon(s@) == s@.len() ==> (r matches Err(e) && e
            matches HttpError::InvalidHeader(m) && m@ == s@ + " is not a valid header"@),
        first_colon(s@) < s@.len() && !name_ok(header_line_name(s@)) ==> (r matches Err(e) && e
            matches HttpError::InvalidHeader(m) && m@ == header_line_name(s@)
            + " is not a valid header name"@),
        first_colon(s@) < s@.len() && name_ok(header_line_name(s@)) && !value_ok(
            header_line_value(s@),
        ) ==> (r matches Err(e) && e matches HttpError::InvalidHeader(m) && m@
            == header_line_value(s@) + " is not a valid header value"@),
        r is Ok <==> header_line_ok(s@),
        !header_line_ok(s@) ==> (r matches Err(e) && e matches HttpError::InvalidHeader(m) && m@
            == header_line_err_msg(s@)),
{
    let len = s.unicode_len();
    let mut i: usize = 0;
    while i < len && s.get_char(i) != ':'
        invariant
            0 <= i <= len,
            len == s@.len(),
            forall|k: int| 0 <= k < i ==> #[trigger] s@[k] != ':',
        decreases len - i,
    {
        i = i + 1;
    }
    proof {
        lemma_first_colon_unique(s@, i as int);
    }
    if i == len {
        return Err(HttpError::InvalidHeader(concat_str(s, " is not a valid header")));
    }
    let raw_name = s.substring_char(0, i);
    let raw_value = s.substring_char(i + 1, len);
    proof {
        assert(raw_name@ =~= s@.take(first_colon(s@)));
        assert(raw_value@ =~= s@.skip(first_colon(s@) + 1));
    }
    let name = trim(raw_name);
    let value = trim(raw_value);
    check_header_pair(name, value)
}

} // verus!
