//! JSON texts.

use vstd::prelude::*;
use vstd::string::*;

use crate::field_map::FieldMap;
use crate::hash;
use crate::text;

verus! {

/// What stands for a character inside a JSON string literal: itself, unless it is a
/// control code, a double quote or a backslash.
pub open spec fn escaped(c: char) -> Seq<char> {
    let n = c as u32;
    if c == '"' || c == '\\' {
        seq!['\\', c]
    } else if n == 8 {
        seq!['\\', 'b']
    } else if n == 9 {
        seq!['\\', 't']
    } else if n == 10 {
        seq!['\\', 'n']
    } else if n == 12 {
        seq!['\\', 'f']
    } else if n == 13 {
        seq!['\\', 'r']
    } else if n < 32 {
        seq!['\\', 'u', '0', '0', hash::hex_digit(n / 16), hash::hex_digit(n % 16)]
    } else {
        seq![c]
    }
}

/// The characters of a text as they stand inside a JSON string literal.
pub open spec fn escaped_text(s: Seq<char>) -> Seq<char>
    decreases s.len(),
{
    if s.len() == 0 {
        s
    } else {
        escaped_text(s.drop_last()) + escaped(s.last())
    }
}

/// The JSON string literal of a text.
pub open spec fn json_string_text(s: Seq<char>) -> Seq<char> {
    seq!['"'] + escaped_text(s) + seq!['"']
}

/// `serde_json::to_string` of a string, which always succeeds: the string literal, in
/// which a double quote, a backslash and the control codes below U+0020 are escaped
/// and nothing else is.
#[verifier::external_body]
pub(crate) fn json_string(s: &str) -> (r: String)
    ensures
        r@ == json_string_text(s@),
{
    match serde_json::to_string(s) {
        Ok(t) => t,
        Err(e) => e.to_string(),
    }
}

/// A text without quotes, backslashes and control codes stands in its literal as it
/// is.
pub proof fn law_plain_text_is_kept(s: Seq<char>)
    requires
        forall|i: int|
            0 <= i < s.len() ==> (#[trigger] s[i]) != '"' && s[i] != '\\' && (s[i] as u32) >= 32,
    ensures
        json_string_text(s) == seq!['"'] + s + seq!['"'],
{
    lemma_plain(s);
}

proof fn lemma_plain(s: Seq<char>)
    requires
        forall|i: int|
            0 <= i < s.len() ==> (#[trigger] s[i]) != '"' && s[i] != '\\' && (s[i] as u32) >= 32,
    ensures
        escaped_text(s) == s,
    decreases s.len(),
{
    if s.len() > 0 {
        let init = s.drop_last();
        assert forall|i: int| 0 <= i < init.len() implies (#[trigger] init[i]) != '"' && init[i]
            != '\\' && (init[i] as u32) >= 32 by {
            assert(init[i] == s[i]);
        }
        lemma_plain(init);
        assert(s[s.len() - 1] == s.last());
        assert(init + seq![s.last()] =~= s);
    }
}

/// The literals of a list of strings, separated by commas.
pub open spec fn literals(items: Seq<Seq<char>>) -> Seq<char> {
    text::joined(items.map_values(|t: Seq<char>| json_string_text(t)), ","@)
}

/// A JSON array of strings.
pub open spec fn array_text(items: Seq<Seq<char>>) -> Seq<char> {
    "["@ + literals(items) + "]"@
}

/// A JSON array of strings.
pub fn string_array(items: &Vec<String>) -> (r: String)
    ensures
        r@ == array_text(text::texts(items@)),
{
    let mut parts: Vec<String> = Vec::new();
    let n: usize = items.len();
    let mut i: usize = 0;
    while i < n
        invariant
            n == items@.len(),
            i <= n,
            parts@.len() == i,
            forall|k: int|
                0 <= k < i ==> (#[trigger] parts@[k])@ == json_string_text(items@[k]@),
        decreases n - i,
    {
        parts.push(json_string(items[i].as_str()));
        i = i + 1;
    }
    assert(text::texts(parts@) =~= text::texts(items@).map_values(
        |t: Seq<char>| json_string_text(t),
    ));
    let mut out = "[".to_owned();
    out.append(text::join(&parts, ",").as_str());
    out.append("]");
    out
}

/// One member of a JSON object.
pub open spec fn member_text(p: (Seq<char>, Seq<char>)) -> Seq<char> {
    json_string_text(p.0) + ":"@ + json_string_text(p.1)
}

/// A JSON object of strings, its members in the given order.
pub open spec fn object_text(pairs: Seq<(Seq<char>, Seq<char>)>) -> Seq<char> {
    "{"@ + text::joined(pairs.map_values(|p: (Seq<char>, Seq<char>)| member_text(p)), ","@) + "}"@
}

/// A JSON object of strings, its members sorted by name.
pub fn string_object(fields: &FieldMap) -> (r: String)
    ensures
        r@ == object_text(fields.pairs()),
{
    let entries = fields.entries();
    let mut parts: Vec<String> = Vec::new();
    let n: usize = entries.len();
    let mut i: usize = 0;
    while i < n
        invariant
            n == entries@.len(),
            crate::field_map::pair_texts(entries@) == fields.pairs(),
            i <= n,
            parts@.len() == i,
            forall|k: int| 0 <= k < i ==> (#[trigger] parts@[k])@ == member_text(fields.pairs()[k]),
        decreases n - i,
    {
        let mut member = json_string(entries[i].0.as_str());
        member.append(":");
        member.append(json_string(entries[i].1.as_str()).as_str());
        assert(fields.pairs()[i as int] == (entries@[i as int].0@, entries@[i as int].1@));
        parts.push(member);
        i = i + 1;
    }
    assert(text::texts(parts@) =~= fields.pairs().map_values(
        |p: (Seq<char>, Seq<char>)| member_text(p),
    ));
    let mut out = "{".to_owned();
    out.append(text::join(&parts, ",").as_str());
    out.append("}");
    out
}

} // verus!
