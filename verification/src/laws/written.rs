//! Replies as a server writes them, apart from how they are read.

use vstd::prelude::*;
use vstd::string::*;

use crate::error::{ScriptError, ServerError};
use crate::error_laws;
use crate::numbers;
use crate::result;
use crate::result::FcallView;
use crate::value;
use crate::value::{Item, Value};

verus! {

/// Whether an item of a reply says a text: as a line, as bytes, or as an integer.
pub open spec fn says(item: Item, t: Seq<char>) -> bool {
    match item {
        Ok(Value::SimpleString(s)) => s@ == t,
        Ok(Value::BulkString(b)) => b@ == vstd::utf8::encode_utf8(t),
        Ok(Value::Int(n)) => numbers::decimal(n as int) == t,
        _ => false,
    }
}

/// Whether a reply is an array of a number, a word and some fields.
pub open spec fn laid_out(raw: Value, n: i64, word: Seq<char>, fields: Seq<Seq<char>>) -> bool {
    raw matches Value::Array(items) && items@.len() == fields.len() + 2 && items@[0] == Ok::<
        Value,
        ServerError,
    >(Value::Int(n)) && says(items@[1], word) && forall|i: int|
        0 <= i < fields.len() ==> says(items@[i + 2], #[trigger] fields[i])
}

/// Whether a reply accepts a call, with a status and some fields.
pub open spec fn written(raw: Value, status: Seq<char>, fields: Seq<Seq<char>>) -> bool {
    laid_out(raw, 1, status, fields)
}

/// Whether a reply refuses a call with an error, whatever details follow its code.
pub open spec fn refused(raw: Value, e: ScriptError<Seq<char>>) -> bool {
    e.code_spec() is Some && exists|details: Seq<Seq<char>>| #[trigger]
        laid_out(raw, 0, e.code_spec()->0@, details)
}

/// What an item says is its text.
pub proof fn lemma_says(item: Item, t: Seq<char>)
    requires
        says(item, t),
    ensures
        item is Ok,
        value::scalar_text(Some(item->Ok_0)) == Some(t),
        !(item->Ok_0 is Int) ==> value::string_text(Some(item->Ok_0)) == Some(t),
{
    vstd::utf8::encode_utf8_valid_utf8(t);
    vstd::utf8::encode_utf8_decode_utf8(t);
}

/// The values of a list without errors are its items.
pub proof fn lemma_values(items: Seq<Item>)
    requires
        forall|i: int| 0 <= i < items.len() ==> (#[trigger] items[i]) is Ok,
    ensures
        result::values_of(items).len() == items.len(),
        forall|i: int|
            0 <= i < items.len() ==> #[trigger] result::values_of(items)[i] == items[i]->Ok_0,
    decreases items.len(),
{
    if items.len() > 0 {
        assert(items.last() is Ok);
        assert forall|i: int| 0 <= i < items.drop_last().len() implies (
        #[trigger] items.drop_last()[i]) is Ok by {
            assert(items[i] is Ok);
        }
        lemma_values(items.drop_last());
        let done = result::values_of(items.drop_last());
        let all = result::values_of(items);
        assert(all == done.push(items.last()->Ok_0));
        assert forall|i: int| 0 <= i < items.len() implies #[trigger] all[i] == items[i]->Ok_0 by {
            if i < items.len() - 1 {
                assert(done[i] == items.drop_last()[i]->Ok_0);
            }
        }
    }
}

/// A reply is taken apart into its number, its word and its fields.
pub proof fn lemma_laid_out(raw: Value, n: i64, word: Seq<char>, fields: Seq<Seq<char>>) -> (f:
    FcallView)
    requires
        laid_out(raw, n, word, fields),
    ensures
        result::envelope(raw) == Ok::<FcallView, ScriptError<Seq<char>>>(f),
        f.success == (n == 1),
        f.status == word,
        f.fields.len() == fields.len(),
        forall|i: int| 0 <= i < fields.len() ==> #[trigger] f.field(i) == fields[i],
{
    let items = raw->Array_0@;
    lemma_says(items[1], word);
    let rest = items.skip(2);
    assert(result::after_status(items) == rest);
    assert forall|i: int| 0 <= i < rest.len() implies (#[trigger] rest[i]) is Ok by {
        assert(says(items[i + 2], fields[i]));
    }
    lemma_values(rest);
    let f = result::envelope(raw)->Ok_0;
    assert forall|i: int| 0 <= i < fields.len() implies #[trigger] f.field(i) == fields[i] by {
        assert(says(items[i + 2], fields[i]));
        lemma_says(items[i + 2], fields[i]);
        assert(f.fields[i] == rest[i]->Ok_0);
    }
    f
}

/// The fields of an accepted call are read as they were written.
pub proof fn lemma_written(raw: Value, status: Seq<char>, fields: Seq<Seq<char>>) -> (f: FcallView)
    requires
        written(raw, status, fields),
    ensures
        result::envelope(raw) == Ok::<FcallView, ScriptError<Seq<char>>>(f),
        result::accepted(raw) == Ok::<FcallView, ScriptError<Seq<char>>>(f),
        result::success_of(f) == Ok::<FcallView, ScriptError<Seq<char>>>(f),
        f.success,
        f.status == status,
        f.fields.len() == fields.len(),
        forall|i: int| 0 <= i < fields.len() ==> #[trigger] f.field(i) == fields[i],
{
    lemma_laid_out(raw, 1, status, fields)
}

/// A refused call is read as the error whose code was written.
pub proof fn lemma_refused(raw: Value, e: ScriptError<Seq<char>>) -> (f: FcallView)
    requires
        refused(raw, e),
    ensures
        result::envelope(raw) == Ok::<FcallView, ScriptError<Seq<char>>>(f),
        !f.success,
        f.status == e.code_spec()->0@,
        result::success_of(f) == Err::<FcallView, ScriptError<Seq<char>>>(error_laws::emptied(e)),
        result::accepted(raw) == Err::<FcallView, ScriptError<Seq<char>>>(error_laws::emptied(e)),
{
    let details = choose|details: Seq<Seq<char>>| #[trigger]
        laid_out(raw, 0, e.code_spec()->0@, details);
    error_laws::law_code_round_trip(e);
    lemma_laid_out(raw, 0, e.code_spec()->0@, details)
}

/// A reply that accepts a call is taken apart into what the server wrote; one that
/// refuses it is the error whose code the server wrote.
pub proof fn law_envelope_reads_back(raw: &Value, status: Seq<char>, fields: Seq<Seq<char>>, e:
    ScriptError<Seq<char>>, r: Result<result::FcallResult<'_>, ScriptError>)
    requires
        call_ensures(result::accept, (raw,), r),
    ensures
        written(*raw, status, fields) ==> (r matches Ok(f) && f@.status == status
            && f@.fields.len() == fields.len() && forall|i: int|
            0 <= i < fields.len() ==> #[trigger] f@.field(i) == fields[i]),
        refused(*raw, e) ==> (r matches Err(x) && x@ == error_laws::emptied(e)),
{
    if written(*raw, status, fields) {
        let g = lemma_written(*raw, status, fields);
    }
    if refused(*raw, e) {
        let g = lemma_refused(*raw, e);
    }
}

} // verus!
