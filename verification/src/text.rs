//! Texts: their lowercase form, their reading from bytes, and numbers
//! written in decimal.
//!
//! Three functions of the standard library are taken on trust here:
//! `str::to_ascii_lowercase`, `str::to_lowercase` and `core::str::from_utf8`.

use vstd::prelude::*;
use vstd::utf8::{decode_utf8, is_ascii_chars, valid_utf8};

verus! {

/// The characters of an optional text.
pub open spec fn chars_of(text: Option<&str>) -> Option<Seq<char>> {
    match text {
        Some(t) => Some(t@),
        None => None,
    }
}

/// The characters of an optional text.
pub open spec fn option_chars(text: Option<String>) -> Option<Seq<char>> {
    match text {
        Some(t) => Some(t@),
        None => None,
    }
}

/// The lowercase form of one character by the rule for ASCII: the letters
/// `A` to `Z` become `a` to `z`, every other character stays.
pub open spec fn ascii_lower(c: char) -> char {
    if 'A' <= c && c <= 'Z' {
        ((c as u8) + 32) as char
    } else {
        c
    }
}

/// A text with each character in its lowercase form by the rule for ASCII.
pub open spec fn ascii_lowercase(text: Seq<char>) -> Seq<char> {
    Seq::new(text.len(), |i: int| ascii_lower(text[i]))
}

/// The lowercase form of a text by Unicode's rules: what `str::to_lowercase`
/// returns for it.
pub uninterp spec fn unicode_lowercase(text: Seq<char>) -> Seq<char>;

/// The lowercase form of a text: by the rule for ASCII where the text holds
/// ASCII characters only, by Unicode's rules otherwise. Two texts are the
/// same name, whatever their case, when their lowercase forms are equal.
pub open spec fn lowercase(text: Seq<char>) -> Seq<char> {
    if is_ascii_chars(text) {
        ascii_lowercase(text)
    } else {
        unicode_lowercase(text)
    }
}

/// `str::to_ascii_lowercase` of the standard library, taken on trust: it
/// maps the letters `A` to `Z` to `a` to `z` and leaves every other
/// character, inside ASCII or outside, unchanged.
pub assume_specification[ str::to_ascii_lowercase ](text: &str) -> (r: String)
    ensures
        r@ == ascii_lowercase(text@),
;

/// `str::to_lowercase` of the standard library, taken on trust: its result
/// depends on the text alone, and is only given a name.
pub assume_specification[ str::to_lowercase ](text: &str) -> (r: String)
    ensures
        r@ == unicode_lowercase(text@),
;

/// The lowercase form of a text.
pub fn lowercase_text(text: &str) -> (r: String)
    ensures
        r@ == lowercase(text@),
{
    if text.is_ascii() {
        text.to_ascii_lowercase()
    } else {
        text.to_lowercase()
    }
}

/// A text without capital letters and without characters outside ASCII.
pub open spec fn plain(text: Seq<char>) -> bool {
    forall|i: int|
        0 <= i < text.len() ==> '\0' <= #[trigger] text[i] <= '\u{7f}' && !('A' <= text[i]
            && text[i] <= 'Z')
}

/// A plain text is its own lowercase form.
pub proof fn lemma_plain_is_lowercase(text: Seq<char>)
    requires
        plain(text),
    ensures
        lowercase(text) == text,
{
    assert(is_ascii_chars(text));
    assert(ascii_lowercase(text) =~= text);
}

/// Reads bytes as UTF-8 text.
///
/// Trusted: this is `core::str::from_utf8`, which returns the text if and
/// only if the bytes are valid UTF-8, and then the text that these bytes
/// encode.
#[verifier::external_body]
pub(crate) fn utf8_text<'a>(bytes: &'a [u8]) -> (r: Option<&'a str>)
    ensures
        r is Some <==> valid_utf8(bytes@),
        r matches Some(text) ==> text@ == decode_utf8(bytes@),
{
    core::str::from_utf8(bytes).ok()
}

/// The digit for `n`, below ten.
pub open spec fn digit(n: nat) -> char {
    ('0' as nat + n) as char
}

/// A number in decimal, without sign or leading zeros.
pub open spec fn decimal(n: nat) -> Seq<char>
    decreases n,
{
    if n < 10 {
        seq![digit(n)]
    } else {
        decimal(n / 10).push(digit(n % 10))
    }
}

/// The text for one decimal digit.
fn digit_text(n: u16) -> (r: &'static str)
    requires
        n < 10,
    ensures
        r@ == seq![digit(n as nat)],
{
    let r = match n {
        0 => "0",
        1 => "1",
        2 => "2",
        3 => "3",
        4 => "4",
        5 => "5",
        6 => "6",
        7 => "7",
        8 => "8",
        _ => "9",
    };
    proof {
        reveal_strlit("0");
        reveal_strlit("1");
        reveal_strlit("2");
        reveal_strlit("3");
        reveal_strlit("4");
        reveal_strlit("5");
        reveal_strlit("6");
        reveal_strlit("7");
        reveal_strlit("8");
        reveal_strlit("9");
        assert(r@ =~= seq![digit(n as nat)]);
    }
    r
}

/// Writes a number in decimal.
pub fn decimal_text(n: u16) -> (r: String)
    ensures
        r@ == decimal(n as nat),
    decreases n,
{
    if n < 10 {
        digit_text(n).to_owned()
    } else {
        let mut text = decimal_text(n / 10);
        text.append(digit_text(n % 10));
        assert(text@ =~= decimal((n / 10) as nat).push(digit((n % 10) as nat)));
        text
    }
}

} // verus!
