//! The envelope of a server function's reply.
//!
//! A server function answers `{1, status, field, ...}` when it accepted the call
//! and `{0, code, detail, ...}` when it refused it.

use vstd::prelude::*;
use vstd::string::*;

use crate::error;
use crate::error::ScriptError;
use crate::shown;
use crate::value;
use crate::value::{Item, Value};

verus! {

/// A reply taken apart.
#[derive(Debug)]
pub struct FcallResult<'a> {
    /// Whether the call was accepted.
    pub success: bool,
    /// `OK`, another status word, or the error code.
    pub status: String,
    /// The values after the status.
    pub fields: Vec<&'a Value>,
}

/// The model of [`FcallResult`].
pub struct FcallView {
    pub success: bool,
    pub status: Seq<char>,
    pub fields: Seq<Value>,
}

impl<'a> View for FcallResult<'a> {
    type V = FcallView;

    open spec fn view(&self) -> FcallView {
        FcallView {
            success: self.success,
            status: self.status@,
            fields: self.fields@.map_values(|v: &Value| *v),
        }
    }
}

impl FcallView {
    /// The text of field `i`, empty when it is missing or no scalar.
    pub open spec fn field(self, i: int) -> Seq<char> {
        if 0 <= i < self.fields.len() {
            value::or_empty(value::scalar_text(Some(self.fields[i])))
        } else {
            Seq::empty()
        }
    }
}

/// The values of a list, items that are errors left out.
pub open spec fn values_of(items: Seq<Item>) -> Seq<Value>
    decreases items.len(),
{
    if items.len() == 0 {
        Seq::empty()
    } else {
        match items.last() {
            Ok(v) => values_of(items.drop_last()).push(v),
            Err(_) => values_of(items.drop_last()),
        }
    }
}

/// The items after the status.
pub open spec fn after_status(items: Seq<Item>) -> Seq<Item> {
    if items.len() < 2 {
        Seq::empty()
    } else {
        items.skip(2)
    }
}

/// What stands in the slot of the status code, for an error message.
pub open spec fn found(item: Item) -> Seq<char> {
    match item {
        Ok(v) => "Some(Ok("@ + shown::shown(v) + "))"@,
        Err(e) => "Some(Err("@ + e.text@ + "))"@,
    }
}

/// The name under which an unreadable envelope is reported.
pub open spec fn envelope_error(message: Seq<char>) -> ScriptError<Seq<char>> {
    error::parse_error("FcallResult::parse"@, message)
}

/// The meaning of a reply: an array whose first item is an integer, 1 for an
/// accepted call, and whose second is the status.
pub open spec fn envelope(raw: Value) -> Result<FcallView, ScriptError<Seq<char>>> {
    match raw {
        Value::Array(items) => if items@.len() == 0 {
            Err(envelope_error("empty FCALL result array"@))
        } else {
            match items@[0] {
                Ok(Value::Int(n)) => Ok(
                    FcallView {
                        success: n == 1,
                        status: value::or_empty(value::scalar_text(value::value_at(items@, 1))),
                        fields: values_of(after_status(items@)),
                    },
                ),
                other => Err(envelope_error("expected Int at index 0, got "@ + found(other))),
            }
        },
        other => Err(
            envelope_error("expected Array, got \""@ + value::shape_name(other)@ + "\""@),
        ),
    }
}

/// A reply of an accepted call; of a refused one, the error it denotes.
pub open spec fn accepted(raw: Value) -> Result<FcallView, ScriptError<Seq<char>>> {
    match envelope(raw) {
        Ok(f) => success_of(f),
        Err(e) => Err(e),
    }
}

/// An accepted reply as it is, a refused one as the error of its code.
pub open spec fn success_of(f: FcallView) -> Result<FcallView, ScriptError<Seq<char>>> {
    if f.success {
        Ok(f)
    } else {
        match error::error_of_code(f.status) {
            Some(e) => Err(e),
            None => Err(
                error::parse_error("FcallResult::into_success"@, "unknown error code: "@ + f.status),
            ),
        }
    }
}

/// The view of a result whose error is an error of a server function.
pub open spec fn res_view<'a>(r: Result<FcallResult<'a>, ScriptError>) -> Result<
    FcallView,
    ScriptError<Seq<char>>,
> {
    match r {
        Ok(f) => Ok(f@),
        Err(e) => Err(e@),
    }
}

fn found_text(item: &Item) -> (r: String)
    ensures
        r@ == found(*item),
{
    let mut out = match item {
        Ok(v) => shown::told("Some(Ok(", v),
        Err(e) => error::prefixed("Some(Err(", e.text.as_str()),
    };
    out.append("))");
    out
}

fn fields_from(items: &Vec<Item>) -> (r: Vec<&Value>)
    ensures
        r@.map_values(|v: &Value| *v) == values_of(after_status(items@)),
{
    let n: usize = items.len();
    let mut out: Vec<&Value> = Vec::new();
    let mut i: usize = 2;
    assert(out@.map_values(|v: &Value| *v) =~= Seq::<Value>::empty());
    if n < 2 {
        return out;
    }
    assert(items@.skip(2).take(0) =~= Seq::<Item>::empty());
    while i < n
        invariant
            n == items@.len(),
            2 <= i <= n,
            out@.map_values(|v: &Value| *v) == values_of(items@.skip(2).take(i - 2)),
        decreases n - i,
    {
        proof {
            let done = items@.skip(2).take(i - 2);
            let next = items@.skip(2).take(i - 1);
            assert(next.drop_last() =~= done);
            assert(next.last() == items@[i as int]);
        }
        let ghost before = out@;
        match &items[i] {
            Ok(v) => {
                out.push(v);
                assert(out@.map_values(|v: &Value| *v) =~= before.map_values(|v: &Value| *v).push(
                    *v,
                ));
            },
            Err(_) => {},
        }
        i = i + 1;
    }
    assert(items@.skip(2).take(n - 2) =~= items@.skip(2));
    out
}

impl<'a> FcallResult<'a> {
    /// Take a reply apart.
    pub fn parse(raw: &'a Value) -> (r: Result<FcallResult<'a>, ScriptError>)
        ensures
            res_view(r) == envelope(*raw),
    {
        let items = match raw {
            Value::Array(items) => items,
            other => {
                let mut message = "expected Array, got \"".to_owned();
                message.append(value::value_type_name(other));
                message.append("\"");
                return Err(error::unreadable("FcallResult::parse", message));
            },
        };
        if items.len() == 0 {
            return Err(
                error::unreadable("FcallResult::parse", "empty FCALL result array".to_owned()),
            );
        }
        let code: i64 = match &items[0] {
            Ok(Value::Int(n)) => *n,
            other => {
                let mut message = "expected Int at index 0, got ".to_owned();
                message.append(found_text(other).as_str());
                return Err(error::unreadable("FcallResult::parse", message));
            },
        };
        let status = value::or_default(value::value_to_string(value::at(items, 1)));
        let fields = fields_from(items);
        Ok(FcallResult { success: code == 1, status, fields })
    }

    /// The reply itself if the call was accepted, and otherwise the error that
    /// its status denotes.
    pub fn into_success(self) -> (r: Result<FcallResult<'a>, ScriptError>)
        ensures
            res_view(r) == success_of(self@),
            r matches Ok(f) ==> f == self,
    {
        if self.success {
            Ok(self)
        } else {
            match ScriptError::from_code(self.status.as_str()) {
                Some(e) => Err(e),
                None => Err(
                    error::unreadable(
                        "FcallResult::into_success",
                        error::prefixed("unknown error code: ", self.status.as_str()),
                    ),
                ),
            }
        }
    }

    /// The text of field `index`, empty when it is missing.
    pub fn field_str(&self, index: usize) -> (r: String)
        ensures
            r@ == self@.field(index as int),
    {
        if index < self.fields.len() {
            value::or_default(value::value_to_string(Some(self.fields[index])))
        } else {
            String::new()
        }
    }
}

/// The reply of an accepted call; of a refused one, the error it denotes.
pub fn accept<'a>(raw: &'a Value) -> (r: Result<FcallResult<'a>, ScriptError>)
    ensures
        res_view(r) == accepted(*raw),
{
    match FcallResult::parse(raw) {
        Ok(f) => f.into_success(),
        Err(e) => Err(e),
    }
}

} // verus!
