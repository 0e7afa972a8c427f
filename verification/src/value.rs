//! Replies of the server, as the client hands them over.

use vstd::prelude::*;
use vstd::string::*;

use crate::error::ServerError;
use crate::numbers;
use crate::text;

verus! {

/// A reply value. What is only ever shown is held as the client shows it.
#[derive(Debug)]
pub enum Value {
    /// No value.
    Nil,
    /// An integer.
    Int(i64),
    /// Binary data.
    BulkString(Vec<u8>),
    /// A list. An item can be an error of its own.
    Array(Vec<Result<Value, ServerError>>),
    /// A line of text.
    SimpleString(String),
    /// The status `OK`.
    Okay,
    /// A list of keys and values.
    Dict(Vec<(Value, Value)>),
    /// A value with attributes, which are left out.
    Attribute(Box<Value>),
    /// A set.
    Members(Vec<Value>),
    /// A floating-point number, as it is shown.
    Double(String),
    /// A truth value.
    Boolean(bool),
    /// Text with a format, which is held as it is shown.
    VerbatimString { format: String, text: String },
    /// An integer beyond 64 bits, as it is shown.
    BigNumber(String),
    /// A message that the server pushed. Its kind is held as it is shown.
    Push { kind: String, data: Vec<Value> },
}

/// An item of an array reply.
pub type Item = Result<Value, ServerError>;

/// The value at index `i`, unless the slot is missing or holds an error.
pub open spec fn value_at(items: Seq<Item>, i: int) -> Option<Value> {
    if 0 <= i < items.len() {
        match items[i] {
            Ok(v) => Some(v),
            Err(_) => None,
        }
    } else {
        None
    }
}

/// The value at index `i`, unless the slot is missing or holds an error.
pub fn at(items: &Vec<Item>, i: usize) -> (r: Option<&Value>)
    ensures
        match value_at(items@, i as int) {
            Some(v) => r matches Some(x) && *x == v,
            None => r is None,
        },
{
    if i < items.len() {
        match &items[i] {
            Ok(v) => Some(v),
            Err(_) => None,
        }
    } else {
        None
    }
}

/// The name of a value's shape.
pub open spec fn shape_name(v: Value) -> &'static str {
    match v {
        Value::Nil => "Nil",
        Value::Int(_) => "Int",
        Value::BulkString(_) => "BulkString",
        Value::Array(_) => "Array",
        Value::SimpleString(_) => "SimpleString",
        Value::Okay => "Okay",
        Value::Dict(_) => "Map",
        Value::Members(_) => "Set",
        Value::Double(_) => "Double",
        Value::Boolean(_) => "Boolean",
        Value::BigNumber(_) => "BigNumber",
        Value::VerbatimString { .. } => "VerbatimString",
        Value::Attribute(_) => "Attribute",
        Value::Push { .. } => "Push",
    }
}

/// The name of a value's shape.
pub fn value_type_name(v: &Value) -> (r: &'static str)
    ensures
        r == shape_name(*v),
{
    match v {
        Value::Nil => "Nil",
        Value::Int(_) => "Int",
        Value::BulkString(_) => "BulkString",
        Value::Array(_) => "Array",
        Value::SimpleString(_) => "SimpleString",
        Value::Okay => "Okay",
        Value::Dict(_) => "Map",
        Value::Members(_) => "Set",
        Value::Double(_) => "Double",
        Value::Boolean(_) => "Boolean",
        Value::BigNumber(_) => "BigNumber",
        Value::VerbatimString { .. } => "VerbatimString",
        Value::Attribute(_) => "Attribute",
        Value::Push { .. } => "Push",
    }
}

/// The text of a string reply.
pub open spec fn string_text(v: Option<Value>) -> Option<Seq<char>> {
    match v {
        Some(Value::BulkString(b)) => Some(text::lossy_text(b@)),
        Some(Value::SimpleString(s)) => Some(s@),
        _ => None,
    }
}

/// The text of a string or integer reply.
pub open spec fn number_text(v: Option<Value>) -> Option<Seq<char>> {
    match v {
        Some(Value::Int(n)) => Some(numbers::decimal(n as int)),
        _ => string_text(v),
    }
}

/// The text of a string, integer or status reply.
pub open spec fn scalar_text(v: Option<Value>) -> Option<Seq<char>> {
    match v {
        Some(Value::Okay) => Some("OK"@),
        _ => number_text(v),
    }
}

/// A text, or the empty text.
pub open spec fn or_empty(t: Option<Seq<char>>) -> Seq<char> {
    match t {
        Some(s) => s,
        None => Seq::empty(),
    }
}

/// The value behind an optional reference.
pub open spec fn deref_opt(v: Option<&Value>) -> Option<Value> {
    match v {
        Some(x) => Some(*x),
        None => None,
    }
}

/// The text of a string reply.
pub fn string_of(v: Option<&Value>) -> (r: Option<String>)
    ensures
        text::opt_text(r) == string_text(deref_opt(v)),
{
    match v {
        Some(Value::BulkString(b)) => Some(text::lossy(b.as_slice())),
        Some(Value::SimpleString(s)) => Some(s.as_str().to_owned()),
        _ => None,
    }
}

/// The text of a string or integer reply.
pub fn number_of(v: Option<&Value>) -> (r: Option<String>)
    ensures
        text::opt_text(r) == number_text(deref_opt(v)),
{
    match v {
        Some(Value::Int(n)) => Some(numbers::i64_text(*n)),
        _ => string_of(v),
    }
}

/// The text of a string, integer or status reply.
pub fn value_to_string(v: Option<&Value>) -> (r: Option<String>)
    ensures
        text::opt_text(r) == scalar_text(deref_opt(v)),
{
    match v {
        Some(Value::Okay) => Some("OK".to_owned()),
        _ => number_of(v),
    }
}

/// A text, or the empty text.
pub fn or_default(t: Option<String>) -> (r: String)
    ensures
        r@ == or_empty(text::opt_text(t)),
{
    match t {
        Some(s) => s,
        None => String::new(),
    }
}

} // verus!
