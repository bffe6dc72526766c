//! Small text operations that the rest of the library builds its messages,
//! file names and titles from.

use vstd::prelude::*;
use vstd::string::*;
use vstd::utf8::{decode_utf8, valid_utf8};

verus! {

/// Whether `c` carries the Unicode property `White_Space`.
pub open spec fn is_whitespace(c: char) -> bool {
    let code = c as u32;
    ||| 0x09 <= code <= 0x0D
    ||| code == 0x20
    ||| code == 0x85
    ||| code == 0xA0
    ||| code == 0x1680
    ||| 0x2000 <= code <= 0x200A
    ||| code == 0x2028
    ||| code == 0x2029
    ||| code == 0x202F
    ||| code == 0x205F
    ||| code == 0x3000
}

/// What an optional text is.
pub open spec fn text_of(text: Option<String>) -> Option<Seq<char>> {
    match text {
        Some(text) => Some(text@),
        None => None,
    }
}

/// Whether every character of `text` is white space; true of the empty text.
pub open spec fn is_blank(text: Seq<char>) -> bool {
    forall|i: int| 0 <= i < text.len() ==> is_whitespace(#[trigger] text[i])
}

/// Number of white-space characters that `text` starts with.
pub open spec fn leading_whitespace(text: Seq<char>) -> nat
    decreases text.len(),
{
    if text.len() > 0 && is_whitespace(text[0]) {
        1 + leading_whitespace(text.drop_first())
    } else {
        0
    }
}

/// Number of white-space characters that `text` ends with.
pub open spec fn trailing_whitespace(text: Seq<char>) -> nat
    decreases text.len(),
{
    if text.len() > 0 && is_whitespace(text.last()) {
        1 + trailing_whitespace(text.drop_last())
    } else {
        0
    }
}

/// `text` without the white space at its two ends.
pub open spec fn trimmed(text: Seq<char>) -> Seq<char> {
    let start = leading_whitespace(text) as int;
    let rest = text.subrange(start, text.len() as int);
    rest.subrange(0, rest.len() - trailing_whitespace(rest))
}

/// The decimal digit that stands for `d`.
pub open spec fn digit_char(d: nat) -> char
    recommends
        d < 10,
{
    if d == 0 {
        '0'
    } else if d == 1 {
        '1'
    } else if d == 2 {
        '2'
    } else if d == 3 {
        '3'
    } else if d == 4 {
        '4'
    } else if d == 5 {
        '5'
    } else if d == 6 {
        '6'
    } else if d == 7 {
        '7'
    } else if d == 8 {
        '8'
    } else {
        '9'
    }
}

/// `n` written in decimal, without sign and without leading zeros.
pub open spec fn decimal(n: nat) -> Seq<char>
    decreases n,
{
    if n < 10 {
        seq![digit_char(n)]
    } else {
        decimal(n / 10).push(digit_char(n % 10))
    }
}

/// The first `leading_whitespace` characters are white space and the one
/// after them, if there is one, is not.
pub proof fn lemma_leading_whitespace(text: Seq<char>)
    ensures
        leading_whitespace(text) <= text.len(),
        forall|i: int| 0 <= i < leading_whitespace(text) ==> is_whitespace(#[trigger] text[i]),
        leading_whitespace(text) < text.len() ==> !is_whitespace(
            text[leading_whitespace(text) as int],
        ),
    decreases text.len(),
{
    if text.len() > 0 && is_whitespace(text[0]) {
        let rest = text.drop_first();
        lemma_leading_whitespace(rest);
        assert forall|i: int| 0 <= i < leading_whitespace(text) implies is_whitespace(
            #[trigger] text[i],
        ) by {
            if i > 0 {
                assert(text[i] == rest[i - 1]);
            }
        }
    }
}

/// A count of leading characters that are all white space and are followed
/// by the end of the text or by another character is the text's own count.
pub proof fn lemma_leading_whitespace_is(text: Seq<char>, count: nat)
    requires
        count <= text.len(),
        forall|i: int| 0 <= i < count ==> is_whitespace(#[trigger] text[i]),
        count < text.len() ==> !is_whitespace(text[count as int]),
    ensures
        leading_whitespace(text) == count,
    decreases text.len(),
{
    if count > 0 {
        let rest = text.drop_first();
        lemma_leading_whitespace_is(rest, (count - 1) as nat);
    }
}

/// A count of trailing characters that are all white space and are preceded
/// by the start of the text or by another character is the text's own count.
pub proof fn lemma_trailing_whitespace_is(text: Seq<char>, count: nat)
    requires
        count <= text.len(),
        forall|i: int| text.len() - count <= i < text.len() ==> is_whitespace(#[trigger] text[i]),
        count < text.len() ==> !is_whitespace(text[text.len() - count - 1]),
    ensures
        trailing_whitespace(text) == count,
    decreases text.len(),
{
    if count > 0 {
        let rest = text.drop_last();
        lemma_trailing_whitespace_is(rest, (count - 1) as nat);
    }
}

/// A text is blank exactly when nothing is left of it after trimming.
pub proof fn lemma_blank_iff_trimmed_empty(text: Seq<char>)
    ensures
        is_blank(text) <==> trimmed(text).len() == 0,
{
    let start = leading_whitespace(text);
    lemma_leading_whitespace(text);
    let rest = text.subrange(start as int, text.len() as int);
    if !is_blank(text) {
        lemma_trailing_whitespace_below(rest);
    }
}

/// A text that starts with a character that is no white space keeps at
/// least that character when its trailing white space is cut off.
proof fn lemma_trailing_whitespace_below(text: Seq<char>)
    requires
        text.len() > 0,
        !is_whitespace(text[0]),
    ensures
        trailing_whitespace(text) < text.len(),
    decreases text.len(),
{
    if text.len() > 1 && is_whitespace(text.last()) {
        let rest = text.drop_last();
        lemma_trailing_whitespace_below(rest);
    }
}

/// Calls `String::from_utf8`. Trusted: as std documents, the bytes are
/// turned into a text exactly when they are valid UTF-8, and the text is the
/// characters that they encode.
#[verifier::external_body]
pub(crate) fn text_from_utf8(bytes: Vec<u8>) -> (out: Option<String>)
    ensures
        out is Some <==> valid_utf8(bytes@),
        out matches Some(text) ==> text@ == decode_utf8(bytes@),
{
    String::from_utf8(bytes).ok()
}

/// Whether `c` is a white-space character.
pub fn char_is_whitespace(c: char) -> (out: bool)
    ensures
        out == is_whitespace(c),
{
    let code: u32 = c as u32;
    (0x09 <= code && code <= 0x0D) || code == 0x20 || code == 0x85 || code == 0xA0 || code
        == 0x1680 || (0x2000 <= code && code <= 0x200A) || code == 0x2028 || code == 0x2029
        || code == 0x202F || code == 0x205F || code == 0x3000
}

/// Whether `text` holds nothing but white space.
pub fn text_is_blank(text: &str) -> (out: bool)
    ensures
        out == is_blank(text@),
{
    let len = text.unicode_len();
    let mut i: usize = 0;
    while i < len
        invariant
            len == text@.len(),
            i <= len,
            forall|k: int| 0 <= k < i ==> is_whitespace(#[trigger] text@[k]),
        decreases len - i,
    {
        if !char_is_whitespace(text.get_char(i)) {
            return false;
        }
        i = i + 1;
    }
    true
}

/// `text` without the white space at its two ends.
pub fn trim_text(text: &str) -> (out: String)
    ensures
        out@ == trimmed(text@),
{
    let len = text.unicode_len();
    let mut start: usize = 0;
    while start < len && char_is_whitespace(text.get_char(start))
        invariant
            len == text@.len(),
            start <= len,
            forall|k: int| 0 <= k < start ==> is_whitespace(#[trigger] text@[k]),
        decreases len - start,
    {
        start = start + 1;
    }
    proof {
        lemma_leading_whitespace_is(text@, start as nat);
    }
    let ghost rest = text@.subrange(start as int, len as int);
    let mut end: usize = len;
    while end > start && char_is_whitespace(text.get_char(end - 1))
        invariant
            len == text@.len(),
            start <= end <= len,
            forall|k: int| end <= k < len ==> is_whitespace(#[trigger] text@[k]),
        decreases end,
    {
        end = end - 1;
    }
    proof {
        lemma_trailing_whitespace_is(rest, (len - end) as nat);
    }
    String::from_str(text.substring_char(start, end))
}

/// The one-character text of the decimal digit `d`.
fn digit_text(d: u8) -> (out: &'static str)
    requires
        d < 10,
    ensures
        out@ == seq![digit_char(d as nat)],
{
    proof {
        reveal_strlit("0");
        reveal_strlit("1");
        reveal_strlit("2");
        reveal_strlit("3");
        reveal_strlit("4");
        reveal_strlit("5");
        reveal_strlit("6");
        reveal_strlit("7");
        reveal_strlit("8");
        reveal_strlit("9");
    }
    let out = if d == 0 {
        "0"
    } else if d == 1 {
        "1"
    } else if d == 2 {
        "2"
    } else if d == 3 {
        "3"
    } else if d == 4 {
        "4"
    } else if d == 5 {
        "5"
    } else if d == 6 {
        "6"
    } else if d == 7 {
        "7"
    } else if d == 8 {
        "8"
    } else {
        "9"
    };
    out
}

/// Appends `n`, written in decimal, to `text`.
pub fn push_decimal(text: &mut String, n: u128)
    ensures
        final(text)@ == old(text)@ + decimal(n as nat),
    decreases n,
{
    if n >= 10 {
        push_decimal(text, n / 10);
    }
    let digit: u8 = (n % 10) as u8;
    text.append(digit_text(digit));
}

/// `n` written in decimal.
pub fn decimal_text(n: u128) -> (out: String)
    ensures
        out@ == decimal(n as nat),
{
    let mut out = String::new();
    push_decimal(&mut out, n);
    out
}

} // verus!
