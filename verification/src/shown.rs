//! How a reply value is shown in an error message.

use vstd::prelude::*;
use vstd::string::*;

use crate::error;
use crate::numbers;
use crate::text;
use crate::value::{Item, Value};

verus! {

/// How the Valkey client shows binary data that is not valid UTF-8.
pub uninterp spec fn binary_text(bytes: Seq<u8>) -> Seq<char>;

/// How the Valkey client shows binary data: as quoted text, if it is text.
pub open spec fn bulk_text(bytes: Seq<u8>) -> Seq<char> {
    if vstd::utf8::valid_utf8(bytes) {
        "bulk-string('"@ + text::debug_text(vstd::utf8::decode_utf8(bytes)) + "')"@
    } else {
        binary_text(bytes)
    }
}

/// The `Debug` rendering of `ferriskey::Value::BulkString`: the quoted text of bytes
/// that are valid UTF-8, and for others the text named `binary_text`.
#[verifier::external_body]
fn show_bulk(bytes: &[u8]) -> (r: String)
    ensures
        vstd::utf8::valid_utf8(bytes@) ==> r@ == "bulk-string('"@ + text::debug_text(
            vstd::utf8::decode_utf8(bytes@),
        ) + "')"@,
        !vstd::utf8::valid_utf8(bytes@) ==> r@ == binary_text(bytes@),
{
    format!("{:?}", ferriskey::Value::BulkString(bytes.to_vec().into()))
}

/// Texts in square brackets.
pub open spec fn listed(parts: Seq<Seq<char>>) -> Seq<char> {
    "["@ + text::joined(parts, ", "@) + "]"@
}

/// How a value is shown.
pub open spec fn shown(v: Value) -> Seq<char>
    decreases v,
{
    match v {
        Value::Nil => "nil"@,
        Value::Int(n) => "int("@ + numbers::decimal(n as int) + ")"@,
        Value::BulkString(b) => bulk_text(b@),
        Value::Array(items) => "array("@ + listed(shown_items(items@)) + ")"@,
        Value::SimpleString(s) => "simple-string("@ + text::debug_text(s@) + ")"@,
        Value::Okay => "ok"@,
        Value::Dict(pairs) => "map("@ + listed(shown_pairs(pairs@)) + ")"@,
        Value::Attribute(data) => "attribute("@ + shown(*data) + ")"@,
        Value::Members(members) => "set("@ + listed(shown_values(members@)) + ")"@,
        Value::Double(d) => "double("@ + d@ + ")"@,
        Value::Boolean(b) => if b {
            "boolean(true)"@
        } else {
            "boolean(false)"@
        },
        Value::VerbatimString { format, text: t } => "verbatim-string("@ + format@ + ","@
            + text::debug_text(t@) + ")"@,
        Value::BigNumber(n) => "big-number("@ + n@ + ")"@,
        Value::Push { kind, data } => "push("@ + kind@ + ", "@ + listed(shown_values(data@)) + ")"@,
    }
}

/// How the items of an array are shown: each quoted.
pub open spec fn shown_items(items: Seq<Item>) -> Seq<Seq<char>>
    decreases items,
{
    if items.len() == 0 {
        Seq::empty()
    } else {
        let last = items.len() - 1;
        shown_items(items.subrange(0, last)).push(
            text::debug_text(
                match items[last] {
                    Ok(v) => shown(v),
                    Err(e) => "err("@ + e.text@ + ")"@,
                },
            ),
        )
    }
}

/// How some values are shown.
pub open spec fn shown_values(values: Seq<Value>) -> Seq<Seq<char>>
    decreases values,
{
    if values.len() == 0 {
        Seq::empty()
    } else {
        let last = values.len() - 1;
        shown_values(values.subrange(0, last)).push(shown(values[last]))
    }
}

/// How keys and values are shown: in pairs.
pub open spec fn shown_pairs(pairs: Seq<(Value, Value)>) -> Seq<Seq<char>>
    decreases pairs,
{
    if pairs.len() == 0 {
        Seq::empty()
    } else {
        let last = pairs.len() - 1;
        shown_pairs(pairs.subrange(0, last)).push(
            "("@ + shown(pairs[last].0) + ", "@ + shown(pairs[last].1) + ")"@,
        )
    }
}

fn show_list(parts: &Vec<String>) -> (r: String)
    ensures
        r@ == listed(text::texts(parts@)),
{
    let mut out = "[".to_owned();
    out.append(text::join(parts, ", ").as_str());
    out.append("]");
    out
}

fn wrapped(name: &str, inside: &str) -> (r: String)
    ensures
        r@ == name@ + inside@ + ")"@,
{
    let mut out = name.to_owned();
    out.append(inside);
    out.append(")");
    out
}

fn show_items(items: &Vec<Item>) -> (r: Vec<String>)
    ensures
        text::texts(r@) == shown_items(items@),
    decreases items,
{
    let mut out: Vec<String> = Vec::new();
    let n: usize = items.len();
    let mut i: usize = 0;
    assert(text::texts(out@) =~= Seq::empty());
    while i < n
        invariant
            n == items@.len(),
            i <= n,
            text::texts(out@) == shown_items(items@.subrange(0, i as int)),
        decreases n - i,
    {
        let ghost before = out@;
        proof {
            let next = items@.subrange(0, i + 1);
            assert(next.subrange(0, i as int) =~= items@.subrange(0, i as int));
            assert(next[i as int] == items@[i as int]);
            assert(decreases_to!(items => items@));
            assert(decreases_to!(items@ => items@[i as int]));
        }
        let inside = match &items[i] {
            Ok(v) => show(v),
            Err(e) => wrapped("err(", e.text.as_str()),
        };
        out.push(text::debug(inside.as_str()));
        assert(text::texts(out@) =~= text::texts(before).push(out@.last()@));
        i = i + 1;
    }
    assert(items@.subrange(0, n as int) =~= items@);
    out
}

fn show_values(values: &Vec<Value>) -> (r: Vec<String>)
    ensures
        text::texts(r@) == shown_values(values@),
    decreases values,
{
    let mut out: Vec<String> = Vec::new();
    let n: usize = values.len();
    let mut i: usize = 0;
    assert(text::texts(out@) =~= Seq::empty());
    while i < n
        invariant
            n == values@.len(),
            i <= n,
            text::texts(out@) == shown_values(values@.subrange(0, i as int)),
        decreases n - i,
    {
        let ghost before = out@;
        proof {
            let next = values@.subrange(0, i + 1);
            assert(next.subrange(0, i as int) =~= values@.subrange(0, i as int));
            assert(next[i as int] == values@[i as int]);
            assert(decreases_to!(values => values@));
            assert(decreases_to!(values@ => values@[i as int]));
        }
        out.push(show(&values[i]));
        assert(text::texts(out@) =~= text::texts(before).push(out@.last()@));
        i = i + 1;
    }
    assert(values@.subrange(0, n as int) =~= values@);
    out
}

fn show_pairs(pairs: &Vec<(Value, Value)>) -> (r: Vec<String>)
    ensures
        text::texts(r@) == shown_pairs(pairs@),
    decreases pairs,
{
    let mut out: Vec<String> = Vec::new();
    let n: usize = pairs.len();
    let mut i: usize = 0;
    assert(text::texts(out@) =~= Seq::empty());
    while i < n
        invariant
            n == pairs@.len(),
            i <= n,
            text::texts(out@) == shown_pairs(pairs@.subrange(0, i as int)),
        decreases n - i,
    {
        let ghost before = out@;
        proof {
            let next = pairs@.subrange(0, i + 1);
            assert(next.subrange(0, i as int) =~= pairs@.subrange(0, i as int));
            assert(next[i as int] == pairs@[i as int]);
            assert(decreases_to!(pairs => pairs@));
            assert(decreases_to!(pairs@ => pairs@[i as int]));
        }
        let mut pair = "(".to_owned();
        pair.append(show(&pairs[i].0).as_str());
        pair.append(", ");
        pair.append(show(&pairs[i].1).as_str());
        pair.append(")");
        out.push(pair);
        assert(text::texts(out@) =~= text::texts(before).push(out@.last()@));
        i = i + 1;
    }
    assert(pairs@.subrange(0, n as int) =~= pairs@);
    out
}

/// Show a value, as the Valkey client does.
pub fn show(v: &Value) -> (r: String)
    ensures
        r@ == shown(*v),
    decreases v,
{
    match v {
        Value::Nil => "nil".to_owned(),
        Value::Int(n) => wrapped("int(", numbers::i64_text(*n).as_str()),
        Value::BulkString(b) => show_bulk(b.as_slice()),
        Value::Array(items) => {
            let parts = show_items(items);
            wrapped("array(", show_list(&parts).as_str())
        },
        Value::SimpleString(s) => wrapped("simple-string(", text::debug(s.as_str()).as_str()),
        Value::Okay => "ok".to_owned(),
        Value::Dict(pairs) => {
            let parts = show_pairs(pairs);
            wrapped("map(", show_list(&parts).as_str())
        },
        Value::Attribute(data) => wrapped("attribute(", show(data).as_str()),
        Value::Members(members) => {
            let parts = show_values(members);
            wrapped("set(", show_list(&parts).as_str())
        },
        Value::Double(d) => wrapped("double(", d.as_str()),
        Value::Boolean(b) => if *b {
            "boolean(true)".to_owned()
        } else {
            "boolean(false)".to_owned()
        },
        Value::VerbatimString { format, text: t } => {
            let mut out = "verbatim-string(".to_owned();
            out.append(format.as_str());
            out.append(",");
            wrapped(out.as_str(), text::debug(t.as_str()).as_str())
        },
        Value::BigNumber(n) => wrapped("big-number(", n.as_str()),
        Value::Push { kind, data } => {
            let parts = show_values(data);
            let mut out = "push(".to_owned();
            out.append(kind.as_str());
            out.append(", ");
            wrapped(out.as_str(), show_list(&parts).as_str())
        },
    }
}

/// A message that ends in a value.
pub(crate) fn told(prefix: &str, v: &Value) -> (r: String)
    ensures
        r@ == prefix@ + shown(*v),
{
    error::prefixed(prefix, show(v).as_str())
}

} // verus!
