use vstd::prelude::*;

verus! {

/// Relies on `String::push` from std: appends exactly one character.
#[verifier::external_body]
pub(crate) fn push_char(s: &mut String, c: char)
    ensures
        final(s)@ == old(s)@.push(c),
{
    s.push(c);
}

/// Whitespace for the purposes of header trimming: space, tab, CR, LF.
pub open spec fn is_space(c: char) -> bool {
    c == ' ' || c == '\t' || c == '\r' || c == '\n'
}

/// An HTTP `token` character: the characters allowed in header names and
/// method names (letters, digits, and `! # $ % & ' * + - . ^ _ ` | ~`).
pub open spec fn is_tchar(c: char) -> bool {
    let u = c as u32;
    ||| (0x30 <= u && u <= 0x39)  // 0-9
    ||| (0x41 <= u && u <= 0x5A)  // A-Z
    ||| (0x61 <= u && u <= 0x7A)  // a-z
    ||| u == 0x21  // !
    ||| u == 0x23  // #
    ||| u == 0x24  // $
    ||| u == 0x25  // %
    ||| u == 0x26  // &
    ||| u == 0x27  // '
    ||| u == 0x2A  // *
    ||| u == 0x2B  // +
    ||| u == 0x2D  // -
    ||| u == 0x2E  // .
    ||| u == 0x5E  // ^
    ||| u == 0x5F  // _
    ||| u == 0x60  // `
    ||| u == 0x7C  // |
    ||| u == 0x7E  // ~
}

/// A character allowed in a header value: visible ASCII plus space and tab.
pub open spec fn is_value_char(c: char) -> bool {
    let u = c as u32;
    u == 0x09 || (0x20 <= u && u <= 0x7E)
}

/// Exec check for [`is_tchar`].
pub fn check_tchar(c: char) -> (b: bool)
    ensures
        b == is_tchar(c),
{
    let u = c as u32;
    (0x30 <= u && u <= 0x39) || (0x41 <= u && u <= 0x5A) || (0x61 <= u && u <= 0x7A) || u == 0x21
        || u == 0x23 || u == 0x24 || u == 0x25 || u == 0x26 || u == 0x27 || u == 0x2A || u == 0x2B
        || u == 0x2D || u == 0x2E || u == 0x5E || u == 0x5F || u == 0x60 || u == 0x7C || u == 0x7E
}

/// Exec check for [`is_value_char`].
pub fn check_value_char(c: char) -> (b: bool)
    ensures
        b == is_value_char(c),
{
    let u = c as u32;
    u == 0x09 || (0x20 <= u && u <= 0x7E)
}

/// Exec check for [`is_space`].
pub fn check_space(c: char) -> (b: bool)
    ensures
        b == is_space(c),
{
    c == ' ' || c == '\t' || c == '\r' || c == '\n'
}

/// How many whitespace characters `s` starts with.
pub open spec fn ws_prefix_len(s: Seq<char>) -> int
    decreases s.len(),
{
    if s.len() == 0 || !is_space(s[0]) {
        0
    } else {
        1 + ws_prefix_len(s.drop_first())
    }
}

/// How many whitespace characters `s` ends with.
pub open spec fn ws_suffix_len(s: Seq<char>) -> int
    decreases s.len(),
{
    if s.len() == 0 || !is_space(s.last()) {
        0
    } else {
        1 + ws_suffix_len(s.drop_last())
    }
}

/// `s` with surrounding whitespace removed.
pub open spec fn trim_view(s: Seq<char>) -> Seq<char> {
    if ws_prefix_len(s) == s.len() {
        Seq::empty()
    } else {
        s.subrange(ws_prefix_len(s), s.len() - ws_suffix_len(s))
    }
}

proof fn lemma_ws_prefix_bounds(s: Seq<char>)
    ensures
        0 <= ws_prefix_len(s) <= s.len(),
        forall|k: int| 0 <= k < ws_prefix_len(s) ==> is_space(#[trigger] s[k]),
        ws_prefix_len(s) < s.len() ==> !is_space(s[ws_prefix_len(s)]),
    decreases s.len(),
{
    if s.len() != 0 && is_space(s[0]) {
        lemma_ws_prefix_bounds(s.drop_first());
        assert forall|k: int| 0 <= k < ws_prefix_len(s) implies is_space(#[trigger] s[k]) by {
            if k > 0 {
                assert(s.drop_first()[k - 1] == s[k]);
            }
        }
    }
}

proof fn lemma_ws_prefix_unique(s: Seq<char>, i: int)
    requires
        0 <= i <= s.len(),
        forall|k: int| 0 <= k < i ==> is_space(#[trigger] s[k]),
        i < s.len() ==> !is_space(s[i]),
    ensures
        i == ws_prefix_len(s),
    decreases s.len(),
{
    if s.len() == 0 || !is_space(s[0]) {
    } else {
        assert(i > 0);
        let t = s.drop_first();
        assert forall|k: int| 0 <= k < i - 1 implies is_space(#[trigger] t[k]) by {
            assert(t[k] == s[k + 1]);
        }
        assert(i - 1 < t.len() ==> !is_space(t[i - 1]));
        lemma_ws_prefix_unique(t, i - 1);
    }
}

proof fn lemma_ws_suffix_bounds(s: Seq<char>)
    ensures
        0 <= ws_suffix_len(s) <= s.len(),
        forall|k: int| s.len() - ws_suffix_len(s) <= k < s.len() ==> is_space(#[trigger] s[k]),
        ws_suffix_len(s) < s.len() ==> !is_space(s[s.len() - ws_suffix_len(s) - 1]),
    decreases s.len(),
{
    if s.len() != 0 && is_space(s.last()) {
        lemma_ws_suffix_bounds(s.drop_last());
        assert forall|k: int| s.len() - ws_suffix_len(s) <= k < s.len() implies is_space(
            #[trigger] s[k],
        ) by {
            if k < s.len() - 1 {
                assert(s.drop_last()[k] == s[k]);
            }
        }
    }
}

proof fn lemma_ws_suffix_unique(s: Seq<char>, j: int)
    requires
        0 <= j <= s.len(),
        forall|k: int| s.len() - j <= k < s.len() ==> is_space(#[trigger] s[k]),
        j < s.len() ==> !is_space(s[s.len() - j - 1]),
    ensures
        j == ws_suffix_len(s),
    decreases s.len(),
{
    if s.len() == 0 || !is_space(s.last()) {
    } else {
        assert(j > 0);
        let t = s.drop_last();
        assert forall|k: int| t.len() - (j - 1) <= k < t.len() implies is_space(
            #[trigger] t[k],
        ) by {
            assert(t[k] == s[k]);
        }
        lemma_ws_suffix_unique(t, j - 1);
    }
}

/// `s` with surrounding whitespace removed.
pub fn trim(s: &str) -> (r: &str)
    ensures
        r@ == trim_view(s@),
{
    let len = s.unicode_len();
    let mut i: usize = 0;
    while i < len && check_space(s.get_char(i))
        invariant
            0 <= i <= len,
            len == s@.len(),
            forall|k: int| 0 <= k < i ==> is_space(#[trigger] s@[k]),
        decreases len - i,
    {
        i = i + 1;
    }
    proof {
        lemma_ws_prefix_unique(s@, i as int);
    }
    if i == len {
        let r = s.substring_char(0, 0);
        proof {
            assert(r@ =~= trim_view(s@));
        }
        return r;
    }
    let mut j: usize = 0;
    while j < len && check_space(s.get_char(len - 1 - j))
        invariant
            0 <= j <= len,
            len == s@.len(),
            forall|k: int| len - j <= k < len ==> is_space(#[trigger] s@[k]),
        decreases len - j,
    {
        j = j + 1;
    }
    proof {
        lemma_ws_suffix_unique(s@, j as int);
        lemma_ws_prefix_bounds(s@);
        lemma_ws_suffix_bounds(s@);
    }
    s.substring_char(i, len - j)
}

/// The decimal digit character for `d`.
pub open spec fn dec_digit(d: int) -> char {
    if d == 0 {
        '0'
    } else if d == 1 {
        '1'
    } else if d == 2 {
        '2'
    } else if d == 3 {
        '3'
    } else if d == 4 {
        '4'
    } else if d == 5 {
        '5'
    } else if d == 6 {
        '6'
    } else if d == 7 {
        '7'
    } else if d == 8 {
        '8'
    } else {
        '9'
    }
}

/// The decimal rendering of a nonnegative integer.
pub open spec fn dec_of(n: int) -> Seq<char>
    decreases n,
{
    if n < 10 {
        seq![dec_digit(n)]
    } else {
        dec_of(n / 10).push(dec_digit(n % 10))
    }
}

/// The decimal rendering of an integer, with a leading minus sign when
/// negative.
pub open spec fn int_text_of(i: int) -> Seq<char> {
    if i < 0 {
        seq!['-'] + dec_of(-i)
    } else {
        dec_of(i)
    }
}

fn dec_digit_exec(d: u64) -> (c: char)
    requires
        d < 10,
    ensures
        c == dec_digit(d as int),
{
    if d == 0 {
        '0'
    } else if d == 1 {
        '1'
    } else if d == 2 {
        '2'
    } else if d == 3 {
        '3'
    } else if d == 4 {
        '4'
    } else if d == 5 {
        '5'
    } else if d == 6 {
        '6'
    } else if d == 7 {
        '7'
    } else if d == 8 {
        '8'
    } else {
        '9'
    }
}

fn u64_dec(n: u64) -> (r: String)
    ensures
        r@ == dec_of(n as int),
    decreases n,
{
    if n < 10 {
        let mut r = String::new();
        push_char(&mut r, dec_digit_exec(n));
        proof {
            assert(r@ =~= dec_of(n as int));
        }
        r
    } else {
        let mut r = u64_dec(n / 10);
        push_char(&mut r, dec_digit_exec(n % 10));
        r
    }
}

/// The decimal text of `i`, e.g. `-42` renders as `"-42"`.
pub fn i64_to_text(i: i64) -> (r: String)
    ensures
        r@ == int_text_of(i as int),
{
    if i >= 0 {
        u64_dec(i as u64)
    } else {
        let mag: u64 = (-(i as i128)) as u64;
        let mut r = String::new();
        push_char(&mut r, '-');
        let digits = u64_dec(mag);
        r.append(digits.as_str());
        proof {
            assert(r@ =~= int_text_of(i as int));
        }
        r
    }
}

} // verus!
