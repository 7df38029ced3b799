//! JSON text: string literals and arrays.

use vstd::prelude::*;
use vstd::string::StringExecFns;

verus! {

/// The error type of `serde_json`, carried as an opaque value.
#[verifier::external_type_specification]
#[verifier::external_body]
pub struct ExJsonError(serde_json::Error);

/// The lower-case hexadecimal digit for a value from 0 to 15.
pub open spec fn hex_digit(n: int) -> char {
    seq!['0', '1', '2', '3', '4', '5', '6', '7', '8', '9', 'a', 'b', 'c', 'd', 'e', 'f'][n]
}

/// How one character stands inside a JSON string literal.
///
/// The quotation mark and the reverse solidus get a reverse solidus in
/// front. The control characters below U+0020 are written as `\b`, `\t`,
/// `\n`, `\f`, `\r` where JSON has such a short form, and as `\u00` with two
/// hexadecimal digits otherwise. Every other character stands for itself.
pub open spec fn escaped_char(c: char) -> Seq<char> {
    if c == '"' {
        seq!['\\', '"']
    } else if c == '\\' {
        seq!['\\', '\\']
    } else if c == '\u{8}' {
        seq!['\\', 'b']
    } else if c == '\t' {
        seq!['\\', 't']
    } else if c == '\n' {
        seq!['\\', 'n']
    } else if c == '\u{c}' {
        seq!['\\', 'f']
    } else if c == '\r' {
        seq!['\\', 'r']
    } else if (c as u32) < 0x20 {
        seq!['\\', 'u', '0', '0', hex_digit((c as u32) as int / 16), hex_digit((c as u32) as int % 16)]
    } else {
        seq![c]
    }
}

/// The characters of `text`, each as it stands inside a JSON string literal.
pub open spec fn escaped(text: Seq<char>) -> Seq<char>
    decreases text.len(),
{
    if text.len() == 0 {
        Seq::empty()
    } else {
        escaped(text.drop_last()) + escaped_char(text.last())
    }
}

/// The JSON string literal for `text`: its escaped characters between
/// quotation marks.
pub open spec fn string_literal(text: Seq<char>) -> Seq<char> {
    seq!['"'] + escaped(text) + seq!['"']
}

/// `items` in order, with a comma between neighbours.
pub open spec fn separated(items: Seq<Seq<char>>) -> Seq<char>
    decreases items.len(),
{
    if items.len() == 0 {
        Seq::empty()
    } else if items.len() == 1 {
        items[0]
    } else {
        separated(items.drop_last()) + seq![','] + items.last()
    }
}

/// The JSON array whose elements are the JSON texts `items`.
pub open spec fn array_text(items: Seq<Seq<char>>) -> Seq<char> {
    seq!['['] + separated(items) + seq![']']
}

/// The character sequences of a list of strings.
pub open spec fn texts(items: Seq<String>) -> Seq<Seq<char>> {
    items.map_values(|s: String| s@)
}

/// Calls `serde_json::to_string` on a string slice.
///
/// Trusted: the call succeeds, since the text is written into a byte vector
/// and a string slice serializes by a single `serialize_str`; and what it
/// writes is a quotation mark, the characters of `text` escaped as
/// `escaped_char` says, and a quotation mark.
#[verifier::external_body]
fn serialize_str(text: &str) -> (r: Result<String, serde_json::Error>)
    ensures
        r is Ok,
        r matches Ok(s) ==> s@ == string_literal(text@),
{
    serde_json::to_string(text)
}

/// Returns the JSON string literal for `text`.
pub fn quote(text: &str) -> (literal: String)
    ensures
        literal@ == string_literal(text@),
{
    match serialize_str(text) {
        Ok(s) => s,
        Err(_) => vstd::pervasive::unreached(),
    }
}

/// Returns the JSON array whose elements are the JSON texts `items`.
pub fn array(items: &Vec<String>) -> (text: String)
    ensures
        text@ == array_text(texts(items@)),
{
    let ghost all = texts(items@);
    let mut out = "[".to_string();
    proof {
        reveal_strlit("[");
        reveal_strlit(",");
        reveal_strlit("]");
        assert(out@ =~= seq!['[']);
        assert(all.take(0) =~= Seq::<Seq<char>>::empty());
    }
    let mut i: usize = 0;
    while i < items.len()
        invariant
            i <= items.len(),
            all == texts(items@),
            ","@ == seq![','],
            out@ == seq!['['] + separated(all.take(i as int)),
        decreases items.len() - i,
    {
        if i > 0 {
            out.append(",");
        }
        out.append(items[i].as_str());
        proof {
            let next = all.take(i + 1);
            assert(next.drop_last() =~= all.take(i as int));
            assert(next.last() == items@[i as int]@);
            assert(out@ =~= seq!['['] + separated(next));
        }
        i += 1;
    }
    proof {
        assert(all.take(i as int) =~= all);
    }
    out.append("]");
    proof {
        assert(out@ =~= array_text(all));
    }
    out
}

} // verus!
