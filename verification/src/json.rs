//! JSON text, as far as this library writes it: strings and arrays.
//!
//! Strings are written by `serde_json`; what it writes is stated here as
//! [`json_string`], so that the documents built from it are known character
//! by character.

use vstd::prelude::*;

verus! {

/// The digit for `n`, below sixteen, in lowercase hexadecimal.
pub open spec fn hex_digit(n: int) -> char {
    if n < 10 {
        ('0' as int + n) as char
    } else {
        ('a' as int + n - 10) as char
    }
}

/// How one character stands inside a JSON string: the quote, the backslash
/// and the characters below the space are escaped, every other character
/// stands for itself.
pub open spec fn escaped_char(c: char) -> Seq<char> {
    if c == '"' {
        seq!['\\', '"']
    } else if c == '\\' {
        seq!['\\', '\\']
    } else if c == '\u{8}' {
        seq!['\\', 'b']
    } else if c == '\t' {
        seq!['\\', 't']
    } else if c == '\n' {
        seq!['\\', 'n']
    } else if c == '\u{c}' {
        seq!['\\', 'f']
    } else if c == '\r' {
        seq!['\\', 'r']
    } else if (c as int) < 0x20 {
        seq!['\\', 'u', '0', '0', hex_digit((c as int) / 16), hex_digit((c as int) % 16)]
    } else {
        seq![c]
    }
}

/// The characters of a text, each as it stands inside a JSON string.
pub open spec fn escaped(text: Seq<char>) -> Seq<char>
    decreases text.len(),
{
    if text.len() == 0 {
        Seq::empty()
    } else {
        escaped(text.drop_last()) + escaped_char(text.last())
    }
}

/// A text as a JSON string: escaped, between quotes.
pub open spec fn json_string(text: Seq<char>) -> Seq<char> {
    seq!['"'] + escaped(text) + seq!['"']
}

/// Writes a text as a JSON string.
///
/// Trusted: this is `serde_json`'s compact writing of `Value::String`, by
/// way of `to_string`. It puts the text between quotes and escapes it by a
/// table of 256 bytes: `\"` and `\\`; `\b`, `\t`, `\n`, `\f`, `\r`; `\u00`
/// and two lowercase hexadecimal digits for the other bytes below 0x20;
/// every other byte, and so every character outside ASCII, unchanged.
#[verifier::external_body]
pub(crate) fn quote(text: &str) -> (r: String)
    ensures
        r@ == json_string(text@),
{
    serde_json::Value::String(text.to_owned()).to_string()
}

/// The items, with a comma between each two.
pub open spec fn joined(items: Seq<Seq<char>>) -> Seq<char>
    decreases items.len(),
{
    if items.len() == 0 {
        Seq::empty()
    } else if items.len() == 1 {
        items[0]
    } else {
        joined(items.drop_last()) + seq![','] + items.last()
    }
}

/// A JSON array of items that are JSON texts already.
pub open spec fn json_array(items: Seq<Seq<char>>) -> Seq<char> {
    seq!['['] + joined(items) + seq![']']
}

/// The characters of each text.
pub open spec fn texts(items: Seq<String>) -> Seq<Seq<char>> {
    items.map_values(|item: String| item@)
}

/// Writes a JSON array of items that are JSON texts already.
pub fn write_array(items: &Vec<String>) -> (r: String)
    ensures
        r@ == json_array(texts(items@)),
{
    let ghost all = texts(items@);
    let mut out = "[".to_owned();
    proof {
        reveal_strlit("[");
        reveal_strlit("]");
        reveal_strlit(",");
        assert("["@ =~= seq!['[']);
        assert("]"@ =~= seq![']']);
        assert(","@ =~= seq![',']);
        assert(all.take(0) =~= Seq::<Seq<char>>::empty());
        assert(out@ =~= seq!['['] + joined(all.take(0)));
    }
    let mut i: usize = 0;
    while i < items.len()
        invariant
            i <= items@.len(),
            all == texts(items@),
            out@ == seq!['['] + joined(all.take(i as int)),
            ","@ == seq![','],
            "]"@ == seq![']'],
        decreases items@.len() - i,
    {
        if i > 0 {
            out.append(",");
        }
        out.append(items[i].as_str());
        proof {
            let before = all.take(i as int);
            let after = all.take(i + 1);
            assert(after.drop_last() =~= before);
            assert(after.last() == items@[i as int]@);
            if i == 0 {
                assert(joined(after) == after[0]);
                assert(joined(before) =~= Seq::<char>::empty());
            }
            assert(out@ =~= seq!['['] + joined(after));
        }
        i += 1;
    }
    out.append("]");
    proof {
        assert(all.take(i as int) =~= all);
    }
    out
}

} // verus!
