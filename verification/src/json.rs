//! The JSON text of request bodies.
//!
//! A body is a flat object whose members are strings or `null`. The text of a
//! string comes from `serde_json`; this module frames the members.

use vstd::prelude::*;
use crate::ids::hex_digit;

verus! {

/// The escape that `serde_json` writes for one character of a string:
/// `"` and `\` are preceded by `\`, the control characters with a short form
/// use it, the other characters below U+0020 become `\u00XX` (lower-case hex),
/// and every other character stands for itself.
pub open spec fn json_escape_char(c: char) -> Seq<char> {
    if c == '"' {
        seq!['\\', '"']
    } else if c == '\\' {
        seq!['\\', '\\']
    } else if c == '\u{8}' {
        seq!['\\', 'b']
    } else if c == '\u{c}' {
        seq!['\\', 'f']
    } else if c == '\n' {
        seq!['\\', 'n']
    } else if c == '\r' {
        seq!['\\', 'r']
    } else if c == '\t' {
        seq!['\\', 't']
    } else if (c as u32) < 0x20 {
        seq!['\\', 'u', '0', '0', hex_digit(((c as u32) / 16) as u128), hex_digit(((c as u32) % 16) as u128)]
    } else {
        seq![c]
    }
}

/// The escaped characters of a string.
pub open spec fn json_escape(s: Seq<char>) -> Seq<char>
    decreases s.len(),
{
    if s.len() == 0 {
        Seq::empty()
    } else {
        json_escape(s.drop_last()) + json_escape_char(s.last())
    }
}

/// A JSON string literal: the escaped characters between double quotes.
pub open spec fn json_string(s: Seq<char>) -> Seq<char> {
    seq!['"'] + json_escape(s) + seq!['"']
}

/// One member of an object: the quoted key, a colon and the value's text.
pub open spec fn json_member(key: Seq<char>, value: Seq<char>) -> Seq<char> {
    json_string(key) + seq![':'] + value
}

/// The members of an object, in order, separated by commas.
pub open spec fn json_members(fields: Seq<(Seq<char>, Seq<char>)>) -> Seq<char>
    decreases fields.len(),
{
    if fields.len() == 0 {
        Seq::empty()
    } else if fields.len() == 1 {
        json_member(fields[0].0, fields[0].1)
    } else {
        json_members(fields.drop_last()) + seq![','] + json_member(
            fields.last().0,
            fields.last().1,
        )
    }
}

/// A compact JSON object with the given members, as `serde_json` writes it:
/// no white space anywhere.
pub open spec fn json_object(fields: Seq<(Seq<char>, Seq<char>)>) -> Seq<char> {
    seq!['{'] + json_members(fields) + seq!['}']
}

/// The text `null`.
pub open spec fn json_null() -> Seq<char> {
    seq!['n', 'u', 'l', 'l']
}

/// The text of an optional string: the string literal, or `null`.
pub open spec fn json_opt_string(s: Option<Seq<char>>) -> Seq<char> {
    match s {
        Some(t) => json_string(t),
        None => json_null(),
    }
}

/// An optional string by its characters.
pub open spec fn opt_view(o: Option<String>) -> Option<Seq<char>> {
    match o {
        Some(t) => Some(t@),
        None => None,
    }
}

/// The members as plain values: each key and value by its characters.
pub open spec fn member_views(fields: Seq<(&str, String)>) -> Seq<(Seq<char>, Seq<char>)> {
    fields.map_values(|f: (&str, String)| (f.0@, f.1@))
}

/// The JSON string literal of `s`.
///
/// Trusted: `serde_json::to_string` on a `str`, which writes `"`, the
/// characters escaped by the `ESCAPE` table of `serde_json::ser` and `"`.
/// Serialising a string into memory cannot fail, so the error arm is never
/// taken.
#[verifier::external_body]
pub(crate) fn json_quote(s: &str) -> (r: String)
    ensures
        r@ == json_string(s@),
{
    match serde_json::to_string(s) {
        Ok(text) => text,
        Err(_) => String::new(),
    }
}

/// The JSON text of `null`.
pub(crate) fn null_text() -> (r: String)
    ensures
        r@ == json_null(),
{
    proof {
        reveal_strlit("null");
    }
    "null".to_owned()
}

/// The JSON text of an optional string.
pub(crate) fn opt_string_text(s: &Option<String>) -> (r: String)
    ensures
        r@ == json_opt_string(opt_view(*s)),
{
    match s {
        Some(t) => json_quote(t.as_str()),
        None => null_text(),
    }
}

/// The compact JSON object whose members are `fields`: each pair is a key
/// and the JSON text of its value.
pub(crate) fn encode_object(fields: &Vec<(&str, String)>) -> (r: String)
    ensures
        r@ == json_object(member_views(fields@)),
{
    let ghost all = member_views(fields@);
    let mut body = String::new();
    body.append("{");
    proof {
        reveal_strlit("{");
        reveal_strlit(",");
        reveal_strlit(":");
        reveal_strlit("}");
        assert(all.take(0) =~= Seq::<(Seq<char>, Seq<char>)>::empty());
        assert(body@ =~= seq!['{'] + json_members(all.take(0)));
    }
    let mut i: usize = 0;
    while i < fields.len()
        invariant
            i <= fields.len(),
            all == member_views(fields@),
            all.len() == fields@.len(),
            body@ == seq!['{'] + json_members(all.take(i as int)),
        decreases fields.len() - i,
    {
        let ghost before = body@;
        if i > 0 {
            body.append(",");
        }
        let key = json_quote(fields[i].0);
        body.append(key.as_str());
        body.append(":");
        body.append(fields[i].1.as_str());
        proof {
            reveal_strlit(",");
            reveal_strlit(":");
            let next = all.take(i + 1);
            assert(next.drop_last() =~= all.take(i as int));
            assert(next.last() == all[i as int]);
            assert(all[i as int] == (fields@[i as int].0@, fields@[i as int].1@));
            assert(body@ =~= seq!['{'] + json_members(next));
        }
        i = i + 1;
    }
    body.append("}");
    proof {
        assert(all.take(fields@.len() as int) =~= all);
        assert(body@ =~= json_object(all));
    }
    body
}

} // verus!
