//! Streams: what was written to them is what is read from them, and what a read asks for.

use vstd::prelude::*;
use vstd::string::*;

use crate::collect;
use crate::cursor::{read_stream, tail_stream, StreamCursor, TailRequest};
use crate::error::{ScriptError, ScriptErrorView, ServerError};
use crate::field_map;
use crate::field_map::FieldMap;
use crate::fields::FromFcallResult;
use crate::functions::stream::ReadFramesResult;
use crate::ids::AttemptIndex;
use crate::keys::ExecKeyContext;
use crate::laws::written;
use crate::laws::written::says;
use crate::numbers;
use crate::result;
use crate::sdk_error::SdkError;
use crate::stream;
use crate::stream::{parse_entries, parse_fields_kv, FieldShape, FrameView, StreamFrame};
use crate::stream_tail;
use crate::stream_tail::{closed_meta, parse_xread_reply, xread_args};
use crate::text;
use crate::value::{Item, Value};
use crate::wire::Call;

verus! {

// ── Fields ──

/// Whether a payload holds some keys and values, in order and in a layout.
pub open spec fn carries(
    payload: Value,
    shape: FieldShape,
    pairs: Seq<(Seq<char>, Seq<char>)>,
) -> bool {
    match shape {
        FieldShape::Flat => payload matches Value::Array(items) && items@.len() == 2 * pairs.len()
            && forall|i: int|
            0 <= i < pairs.len() ==> says(items@[2 * i], (#[trigger] pairs[i]).0) && says(
                items@[2 * i + 1],
                pairs[i].1,
            ),
        FieldShape::Pairs => payload matches Value::Array(items) && items@.len() == pairs.len()
            && forall|i: int|
            0 <= i < pairs.len() ==> is_pair(items@[i], #[trigger] pairs[i]),
        FieldShape::Dict => payload matches Value::Dict(entries) && entries@.len() == pairs.len()
            && forall|i: int|
            0 <= i < pairs.len() ==> says(
                Ok::<Value, ServerError>(entries@[i].0),
                (#[trigger] pairs[i]).0,
            ) && says(Ok::<Value, ServerError>(entries@[i].1), pairs[i].1),
    }
}

/// Whether an item is a key and its value.
pub open spec fn is_pair(item: Item, p: (Seq<char>, Seq<char>)) -> bool {
    item matches Ok(Value::Array(inner)) && inner@.len() == 2 && says(inner@[0], p.0) && says(
        inner@[1],
        p.1,
    )
}

/// A list of results that are all fine is read in full.
proof fn lemma_all_fine<T, E>(list: Seq<Result<T, E>>, want: Seq<T>)
    requires
        list.len() == want.len(),
        forall|i: int| 0 <= i < want.len() ==> #[trigger] list[i] == Ok::<T, E>(want[i]),
    ensures
        collect::all_ok(list) == Ok::<Seq<T>, E>(want),
    decreases want.len(),
{
    if want.len() > 0 {
        assert(list[want.len() - 1] == Ok::<T, E>(want.last()));
        assert forall|i: int| 0 <= i < want.drop_last().len() implies #[trigger] list.drop_last()[i]
            == Ok::<T, E>(want.drop_last()[i]) by {
            assert(list[i] == Ok::<T, E>(want[i]));
        }
        lemma_all_fine(list.drop_last(), want.drop_last());
        assert(want.drop_last().push(want.last()) =~= want);
    } else {
        assert(want =~= Seq::empty());
    }
}

proof fn lemma_carried(payload: Value, shape: FieldShape, pairs: Seq<(Seq<char>, Seq<char>)>)
    requires
        carries(payload, shape, pairs),
    ensures
        stream::fields_of(payload, shape) == Ok::<Map<Seq<char>, Seq<char>>, ScriptErrorView>(
            field_map::map_of(pairs),
        ),
{
    match shape {
        FieldShape::Flat => {
            let items = payload->Array_0@;
            let list = stream::flat_pairs(items);
            assert forall|i: int| 0 <= i < pairs.len() implies #[trigger] list[i] == Ok::<
                (Seq<char>, Seq<char>),
                ScriptErrorView,
            >(pairs[i]) by {
                assert(says(items[2 * i], pairs[i].0));
                written::lemma_says(items[2 * i], pairs[i].0);
                written::lemma_says(items[2 * i + 1], pairs[i].1);
            }
            lemma_all_fine(list, pairs);
        },
        FieldShape::Pairs => {
            let items = payload->Array_0@;
            let list = stream::nested_pairs(items);
            assert forall|i: int| 0 <= i < pairs.len() implies #[trigger] list[i] == Ok::<
                (Seq<char>, Seq<char>),
                ScriptErrorView,
            >(pairs[i]) by {
                assert(is_pair(items[i], pairs[i]));
                let inner = items[i]->Ok_0->Array_0@;
                written::lemma_says(inner[0], pairs[i].0);
                written::lemma_says(inner[1], pairs[i].1);
            }
            lemma_all_fine(list, pairs);
        },
        FieldShape::Dict => {
            let entries = payload->Dict_0@;
            let list = stream::dict_pairs(entries);
            assert forall|i: int| 0 <= i < pairs.len() implies #[trigger] list[i] == Ok::<
                (Seq<char>, Seq<char>),
                ScriptErrorView,
            >(pairs[i]) by {
                written::lemma_says(Ok::<Value, ServerError>(entries[i].0), pairs[i].0);
                written::lemma_says(Ok::<Value, ServerError>(entries[i].1), pairs[i].1);
            }
            lemma_all_fine(list, pairs);
        },
    }
}

/// The fields of an entry are read as they were written, whatever the layout: each key
/// has the value that was written after it, the last one where it occurs again, and there
/// is no other key. Nothing is read where nothing was written.
pub proof fn law_fields_read_back(
    v: &Value,
    shape: FieldShape,
    pairs: Seq<(Seq<char>, Seq<char>)>,
    r: Result<FieldMap, ScriptError>,
)
    requires
        call_ensures(parse_fields_kv, (v, shape), r),
    ensures
        carries(*v, shape, pairs) ==> (r matches Ok(m) && m@ == field_map::map_of(pairs)),
        *v is Nil ==> (r matches Ok(m) && m@ == Map::<Seq<char>, Seq<char>>::empty()),
        (shape is Flat && (*v matches Value::Array(items) && items@.len() % 2 == 1)) ==> r is Err,
        !(*v is Nil || *v is Array || *v is Dict) ==> r is Err,
{
    if carries(*v, shape, pairs) {
        lemma_carried(*v, shape, pairs);
    }
}

// ── Entries ──

/// Whether an item is an entry with an identity and fields.
pub open spec fn is_entry(
    item: Item,
    shape: FieldShape,
    id: Seq<char>,
    pairs: Seq<(Seq<char>, Seq<char>)>,
) -> bool {
    item matches Ok(Value::Array(parts)) && parts@.len() == 2 && says(parts@[0], id) && (
    parts@[1] matches Ok(payload) && carries(payload, shape, pairs))
}

/// Whether a value is a list of entries.
pub open spec fn lists_entries(
    raw: Value,
    shape: FieldShape,
    entries: Seq<(Seq<char>, Seq<(Seq<char>, Seq<char>)>)>,
) -> bool {
    raw matches Value::Array(items) && items@.len() == entries.len() && forall|i: int|
        0 <= i < entries.len() ==> is_entry(
            items@[i],
            shape,
            (#[trigger] entries[i]).0,
            entries[i].1,
        )
}

/// The frames that entries are.
pub open spec fn frames_of(entries: Seq<(Seq<char>, Seq<(Seq<char>, Seq<char>)>)>) -> Seq<FrameView> {
    Seq::new(
        entries.len(),
        |i: int| FrameView { id: entries[i].0, fields: field_map::map_of(entries[i].1) },
    )
}

proof fn lemma_listed(
    raw: Value,
    shape: FieldShape,
    entries: Seq<(Seq<char>, Seq<(Seq<char>, Seq<char>)>)>,
)
    requires
        lists_entries(raw, shape, entries),
    ensures
        stream::entries_of(raw, shape) == Ok::<Seq<FrameView>, ScriptErrorView>(
            frames_of(entries),
        ),
{
    let items = raw->Array_0@;
    let list = stream::entry_list(items, shape);
    let want = frames_of(entries);
    assert forall|i: int| 0 <= i < want.len() implies #[trigger] list[i] == Ok::<
        FrameView,
        ScriptErrorView,
    >(want[i]) by {
        assert(is_entry(items[i], shape, entries[i].0, entries[i].1));
        let parts = items[i]->Ok_0->Array_0@;
        written::lemma_says(parts[0], entries[i].0);
        lemma_carried(parts[1]->Ok_0, shape, entries[i].1);
    }
    lemma_all_fine(list, want);
}

/// The entries of a stream are read as they were written: as many, in order, each with its
/// identity and its fields.
pub proof fn law_entries_read_back(
    raw: &Value,
    shape: FieldShape,
    entries: Seq<(Seq<char>, Seq<(Seq<char>, Seq<char>)>)>,
    r: Result<Vec<StreamFrame>, ScriptError>,
)
    requires
        call_ensures(parse_entries, (raw, shape), r),
    ensures
        lists_entries(*raw, shape, entries) ==> (r matches Ok(v) && v@.len() == entries.len()
            && forall|i: int|
            0 <= i < entries.len() ==> (#[trigger] v@[i]).id@ == entries[i].0 && v@[i].fields@
                == field_map::map_of(entries[i].1)),
        *raw is Nil ==> (r matches Ok(v) && v@.len() == 0),
{
    if lists_entries(*raw, shape, entries) {
        lemma_listed(*raw, shape, entries);
        let v = r->Ok_0@;
        assert(stream::frames_view(v).len() == entries.len());
        assert forall|i: int| 0 <= i < entries.len() implies (#[trigger] v[i]).id@ == entries[i].0
            && v[i].fields@ == field_map::map_of(entries[i].1) by {
            assert(stream::frames_view(v)[i] == frames_of(entries)[i]);
        }
    }
    if *raw is Nil {
        assert(stream::frames_view(r->Ok_0@).len() == 0);
    }
}

/// A read gives the entries that were written, and tells when and why the stream was
/// closed; while it is open, neither.
pub proof fn law_read_reads_back(
    raw: &Value,
    items: Vec<Item>,
    entries: Seq<(Seq<char>, Seq<(Seq<char>, Seq<char>)>)>,
    at: i64,
    why: Seq<char>,
    r: Result<ReadFramesResult, ScriptError>,
)
    requires
        call_ensures(ReadFramesResult::from_fcall_result, (raw,), r),
        *raw == Value::Array(items),
        items@.len() == 5,
        items@[0] == Ok::<Value, ServerError>(Value::Int(1)),
        items@[2] matches Ok(list) && lists_entries(list, FieldShape::Flat, entries),
        says(items@[3], numbers::decimal(at as int)) || says(items@[3], Seq::empty()),
        says(items@[4], why),
    ensures
        r matches Ok(ReadFramesResult::Frames(s)) && s.frames@.len() == entries.len() && (forall|
            i: int,
        |
            0 <= i < entries.len() ==> (#[trigger] s.frames@[i]).id@ == entries[i].0
                && s.frames@[i].fields@ == field_map::map_of(entries[i].1)) && (says(
            items@[3],
            numbers::decimal(at as int),
        ) ==> s.closed_at == Some(at)) && (says(items@[3], Seq::empty()) ==> s.closed_at is None)
            && (why.len() == 0 ==> s.closed_reason is None) && (why.len() > 0 ==> (
        s.closed_reason matches Some(w) && w@ == why)),
{
    let rest = items@.skip(2);
    assert(result::after_status(items@) == rest);
    assert(rest[0] == items@[2] && rest[1] == items@[3] && rest[2] == items@[4]);
    written::lemma_says(items@[4], why);
    if says(items@[3], numbers::decimal(at as int)) {
        written::lemma_says(items@[3], numbers::decimal(at as int));
        numbers::law_i64_round_trip(at);
    }
    if says(items@[3], Seq::empty()) {
        written::lemma_says(items@[3], Seq::empty());
    }
    let f = result::envelope(*raw)->Ok_0;
    assert forall|i: int| 0 <= i < rest.len() implies (#[trigger] rest[i]) is Ok by {
        assert(i == 0 || i == 1 || i == 2);
    }
    written::lemma_values(rest);
    assert(f.fields =~= seq![items@[2]->Ok_0, items@[3]->Ok_0, items@[4]->Ok_0]);
    lemma_listed(items@[2]->Ok_0, FieldShape::Flat, entries);
    let frames = r->Ok_0->Frames_0.frames@;
    assert(stream::frames_view(frames) == frames_of(entries));
    assert(frames.len() == entries.len());
    assert forall|i: int| 0 <= i < entries.len() implies (#[trigger] frames[i]).id@ == entries[i].0
        && frames[i].fields@ == field_map::map_of(entries[i].1) by {
        assert(stream::frames_view(frames)[i] == frames_of(entries)[i]);
    }
}

// ── Tails ──

/// A tail gives the entries that were written to the stream, and none of another one. A
/// wait that ends without any gives none.
pub proof fn law_tail_reads_back(
    raw: &Value,
    stream_key: &str,
    items: Vec<Item>,
    other: Seq<char>,
    entries: Seq<(Seq<char>, Seq<(Seq<char>, Seq<char>)>)>,
    r: Result<Vec<StreamFrame>, ScriptError>,
)
    requires
        call_ensures(parse_xread_reply, (raw, stream_key), r),
    ensures
        *raw is Nil ==> (r matches Ok(v) && v@.len() == 0),
        (*raw == Value::Array(items) && items@.len() == 1 && (items@[0] matches Ok(
            Value::Array(pair),
        ) && pair@.len() == 2 && says(pair@[0], stream_key@) && !(pair@[0] matches Ok(
            Value::Int(_),
        )) && (pair@[1] matches Ok(list) && lists_entries(list, FieldShape::Pairs, entries)))) ==> (
        r matches Ok(v) && v@.len() == entries.len() && forall|i: int|
            0 <= i < entries.len() ==> (#[trigger] v@[i]).id@ == entries[i].0 && v@[i].fields@
                == field_map::map_of(entries[i].1)),
        (*raw == Value::Array(items) && items@.len() == 1 && (items@[0] matches Ok(
            Value::Array(pair),
        ) && pair@.len() == 2 && says(pair@[0], other) && other != stream_key@)) ==> (r matches Ok(
            v,
        ) && v@.len() == 0),
{
    if *raw is Nil {
        assert(stream::frames_view(r->Ok_0@).len() == 0);
    }
    if *raw == Value::Array(items) && items@.len() == 1 && (items@[0] matches Ok(Value::Array(pair))
        && pair@.len() == 2) {
        let pair = items@[0]->Ok_0->Array_0@;
        assert(items@.skip(1) =~= Seq::empty());
        if says(pair[0], stream_key@) && !(pair[0] matches Ok(Value::Int(_))) && (pair[1] matches Ok(
            list,
        ) && lists_entries(list, FieldShape::Pairs, entries)) {
            lemma_listed(pair[1]->Ok_0, FieldShape::Pairs, entries);
            let v = r->Ok_0@;
            assert(stream::frames_view(v) == frames_of(entries));
            assert(v.len() == entries.len());
            assert forall|i: int| 0 <= i < entries.len() implies (#[trigger] v[i]).id@
                == entries[i].0 && v[i].fields@ == field_map::map_of(entries[i].1) by {
                assert(stream::frames_view(v)[i] == frames_of(entries)[i]);
            }
        }
        if says(pair[0], other) && other != stream_key@ {
            vstd::utf8::encode_utf8_decode_utf8(other);
            vstd::utf8::encode_utf8_decode_utf8(stream_key@);
            assert(!stream_tail::item_matches(items@[0], stream_key@));
            assert(stream_tail::list_frames(items@.skip(1), stream_key@) == Ok::<
                Seq<FrameView>,
                ScriptErrorView,
            >(Seq::empty()));
            assert(stream::frames_view(r->Ok_0@).len() == 0);
        }
    }
}

/// A stream is closed when the server says so in a time, and its reason is the one that is
/// written; an empty field says nothing.
pub proof fn law_closing_reads_back(
    values: &Vec<Option<String>>,
    at: i64,
    r: (Option<i64>, Option<String>),
)
    requires
        call_ensures(closed_meta, (values,), r),
        values@.len() == 2,
    ensures
        (values@[0] matches Some(s) && s@ == numbers::decimal(at as int)) ==> r.0 == Some(at),
        values@[0] is None ==> r.0 is None,
        (values@[0] matches Some(s) && s@.len() == 0) ==> r.0 is None,
        (values@[1] matches Some(s) && s@.len() > 0) ==> (r.1 matches Some(w) && w@
            == values@[1]->0@),
        (values@[1] matches Some(s) && s@.len() == 0) ==> r.1 is None,
        values@[1] is None ==> r.1 is None,
{
    numbers::law_i64_round_trip(at);
    if numbers::decimal(at as int).len() == 0 {
        assert(numbers::parse_i64_spec(Seq::empty()) is Err);
        assert(numbers::decimal(at as int) =~= Seq::empty());
    }
}

// ── Requests ──

/// A read of a stream is for at least one entry and at most ten thousand. It asks for the
/// entries between its two places, as many as the limit says; the ends of a stream have
/// marks of their own.
pub proof fn law_read_request(
    ctx: &ExecKeyContext,
    attempt: AttemptIndex,
    from: &StreamCursor,
    to: &StreamCursor,
    limit: u64,
    r: Result<Call, SdkError>,
)
    requires
        call_ensures(read_stream, (ctx, attempt, from, to, limit), r),
    ensures
        r is Ok <==> 1 <= limit <= 10_000,
        r matches Err(x) ==> x is Config,
        r matches Ok(c) ==> {
            &&& c.function == "ff_read_attempt_stream"
            &&& c.keys_spec().len() == 2
            &&& c.keys_spec()[0] == ctx.stream_spec(attempt)
            &&& c.keys_spec()[1] == ctx.stream_meta_spec(attempt)
            &&& c.argv_spec().len() == 3
            &&& from is Start ==> c.argv_spec()[0] == "-"@
            &&& from is End ==> c.argv_spec()[0] == "+"@
            &&& from matches StreamCursor::At(s) ==> c.argv_spec()[0] == s@
            &&& to is Start ==> c.argv_spec()[1] == "-"@
            &&& to is End ==> c.argv_spec()[1] == "+"@
            &&& to matches StreamCursor::At(s) ==> c.argv_spec()[1] == s@
            &&& c.argv_spec()[2] == numbers::decimal(limit as int)
        },
{
}

/// The words of a wait for entries: the limit, the time to wait where there is one, and
/// last the stream and the place after which entries are asked for.
pub proof fn law_wait_words(
    stream_key: &str,
    last_id: &str,
    block_ms: u64,
    limit: u64,
    r: Result<Vec<String>, ScriptError>,
)
    requires
        call_ensures(xread_args, (stream_key, last_id, block_ms, limit), r),
    ensures
        r is Ok <==> 1 <= limit <= 10_000,
        r matches Err(x) ==> x is InvalidInput,
        r matches Ok(words) ==> {
            let n = words@.len() as int;
            &&& words@[0]@ == "COUNT"@
            &&& words@[1]@ == numbers::decimal(limit as int)
            &&& n == (if block_ms > 0 { 7int } else { 5int })
            &&& block_ms > 0 ==> words@[2]@ == "BLOCK"@ && words@[3]@ == numbers::decimal(
                block_ms as int,
            )
            &&& words@[n - 3]@ == "STREAMS"@
            &&& words@[n - 2]@ == stream_key@
            &&& words@[n - 1]@ == last_id@
        },
{
    if let Ok(words) = r {
        let t = text::texts(words@);
        assert(t.len() == words@.len());
        assert(t[0] == words@[0]@ && t[1] == words@[1]@);
        assert(t[2] == words@[2]@ && t[3] == words@[3]@ && t[4] == words@[4]@);
        if block_ms > 0 {
            assert(t[5] == words@[5]@ && t[6] == words@[6]@);
        }
    }
}

/// A tail starts at an entry, waits for at most thirty seconds, and asks for at least one
/// entry and at most ten thousand, of the attempt's own stream.
pub proof fn law_tail_request(
    ctx: &ExecKeyContext,
    attempt: AttemptIndex,
    after: &StreamCursor,
    block_ms: u64,
    limit: u64,
    r: Result<TailRequest, SdkError>,
)
    requires
        call_ensures(tail_stream, (ctx, attempt, after, block_ms, limit), r),
    ensures
        r is Ok <==> block_ms <= 30_000 && 1 <= limit <= 10_000 && after is At,
        r matches Err(x) ==> x is Config,
        r matches Ok(t) ==> t.stream_key@ == ctx.stream_spec(attempt) && t.stream_meta_key@
            == ctx.stream_meta_spec(attempt) && t.words@.len() >= 5 && t.words@[t.words@.len()
            - 2]@ == t.stream_key@ && (after matches StreamCursor::At(s) && t.words@.last()@ == s@)
            && t.words@[1]@ == numbers::decimal(limit as int),
{
    if let Ok(t) = r {
        let w = text::texts(t.words@);
        assert(w.len() == t.words@.len());
        assert(w[1] == t.words@[1]@);
        assert(w[w.len() - 2] == t.words@[t.words@.len() - 2]@);
        assert(w[w.len() - 1] == t.words@[t.words@.len() - 1]@);
    }
}

/// The place from which a tail sees everything is before any entry's identity.
pub proof fn law_beginning_is_concrete(r: StreamCursor)
    requires
        call_ensures(StreamCursor::from_beginning, (), r),
    ensures
        r matches StreamCursor::At(s) && s@ == "0-0"@,
{
}

} // verus!
