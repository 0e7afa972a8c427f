//! Tailing a stream: the arguments and the reply of a direct stream read.

use vstd::prelude::*;
use vstd::string::*;

use crate::collect;
use crate::error;
use crate::error::{ScriptError, ScriptErrorView, ServerError};
use crate::numbers;
use crate::shown;
use crate::stream;
use crate::stream::{FieldShape, FrameView, StreamFrame, StreamFrames, STREAM_READ_HARD_CAP};
use crate::text;
use crate::value;
use crate::value::{Item, Value};

verus! {

// ── Arguments ──

/// Why a read count is refused.
pub open spec fn count_refusal(count_limit: u64) -> Option<ScriptErrorView> {
    if count_limit == 0 {
        Some(ScriptError::InvalidInput("xread_block: count_limit must be >= 1"@))
    } else if count_limit > STREAM_READ_HARD_CAP {
        Some(
            ScriptError::InvalidInput(
                "xread_block: count_limit exceeds STREAM_READ_HARD_CAP (10000)"@,
            ),
        )
    } else {
        None
    }
}

/// The words of the command, after its name.
pub open spec fn xread_words(
    stream_key: Seq<char>,
    last_id: Seq<char>,
    block_ms: u64,
    count_limit: u64,
) -> Seq<Seq<char>> {
    let count = seq!["COUNT"@, numbers::decimal(count_limit as int)];
    let block = if block_ms > 0 {
        seq!["BLOCK"@, numbers::decimal(block_ms as int)]
    } else {
        Seq::empty()
    };
    count + block + seq!["STREAMS"@, stream_key, last_id]
}

/// The arguments of `XREAD` for one stream: at most `count_limit` entries after
/// `last_id`, waiting up to `block_ms` milliseconds for the first (0 does not
/// wait).
pub fn xread_args(stream_key: &str, last_id: &str, block_ms: u64, count_limit: u64) -> (r: Result<
    Vec<String>,
    ScriptError,
>)
    ensures
        match count_refusal(count_limit) {
            Some(e) => r matches Err(x) && x@ == e,
            None => r matches Ok(words) && text::texts(words@) == xread_words(
                stream_key@,
                last_id@,
                block_ms,
                count_limit,
            ),
        },
{
    if count_limit == 0 {
        return Err(
            ScriptError::InvalidInput("xread_block: count_limit must be >= 1".to_owned()),
        );
    }
    if count_limit > STREAM_READ_HARD_CAP {
        return Err(
            ScriptError::InvalidInput(
                "xread_block: count_limit exceeds STREAM_READ_HARD_CAP (10000)".to_owned(),
            ),
        );
    }
    let mut words: Vec<String> = Vec::new();
    words.push("COUNT".to_owned());
    words.push(numbers::u64_text(count_limit));
    if block_ms > 0 {
        words.push("BLOCK".to_owned());
        words.push(numbers::u64_text(block_ms));
    }
    words.push("STREAMS".to_owned());
    words.push(stream_key.to_owned());
    words.push(last_id.to_owned());
    assert(text::texts(words@) =~= xread_words(stream_key@, last_id@, block_ms, count_limit));
    Ok(words)
}

// ── Terminal markers ──

/// A field of a hash reply, unless it is missing or empty.
pub open spec fn marker(values: Seq<Option<String>>, i: int) -> Option<Seq<char>> {
    if 0 <= i < values.len() {
        match values[i] {
            Some(s) => if s@.len() == 0 {
                None
            } else {
                Some(s@)
            },
            None => None,
        }
    } else {
        None
    }
}

/// A timestamp from text: nothing when it does not parse.
pub open spec fn timestamp_of(t: Option<Seq<char>>) -> Option<i64> {
    match t {
        Some(s) => match numbers::parse_i64_spec(s) {
            Ok(n) => Some(n),
            Err(_) => None,
        },
        None => None,
    }
}

fn read_marker(values: &Vec<Option<String>>, i: usize) -> (r: Option<String>)
    ensures
        text::opt_text(r) == marker(values@, i as int),
{
    if i < values.len() {
        match &values[i] {
            Some(s) => if s.as_str().is_empty() {
                None
            } else {
                Some(s.as_str().to_owned())
            },
            None => None,
        }
    } else {
        None
    }
}

/// The terminal markers of a stream from the values of its `closed_at` and
/// `closed_reason` fields. A missing stream and an open one look alike.
pub fn closed_meta(values: &Vec<Option<String>>) -> (r: (Option<i64>, Option<String>))
    ensures
        r.0 == timestamp_of(marker(values@, 0)),
        text::opt_text(r.1) == marker(values@, 1),
{
    let closed_at: Option<i64> = match read_marker(values, 0) {
        Some(s) => match numbers::parse_i64(s.as_str()) {
            Ok(n) => Some(n),
            Err(_) => None,
        },
        None => None,
    };
    (closed_at, read_marker(values, 1))
}

// ── Reply ──

/// A tail reply that cannot be read.
pub open spec fn tail_error(message: Seq<char>) -> ScriptErrorView {
    error::parse_error("parse_xread_reply"@, message)
}

/// Whether a reply key names the stream.
pub open spec fn names(k: Value, stream_key: Seq<char>) -> bool {
    match k {
        Value::BulkString(b) => b@ == vstd::utf8::encode_utf8(stream_key),
        Value::SimpleString(s) => s@ == stream_key,
        _ => false,
    }
}

/// One entry of a list of ids and payloads.
pub open spec fn keyed_entry(id: Value, payload: Value) -> Result<FrameView, ScriptErrorView> {
    match value::scalar_text(Some(id)) {
        Some(t) => stream::frame_of(t, payload, FieldShape::Pairs),
        None => Err(tail_error("XREAD entry: bad id"@)),
    }
}

/// The entries of a list of ids and payloads.
pub open spec fn keyed_entries(pairs: Seq<(Value, Value)>) -> Seq<
    Result<FrameView, ScriptErrorView>,
> {
    Seq::new(pairs.len(), |i: int| keyed_entry(pairs[i].0, pairs[i].1))
}

/// The frames of the entries of one stream: a list of `[id, fields]` entries or
/// of ids and payloads. `expected` names the accepted shapes in an error.
pub open spec fn tail_entries(raw: Value, expected: Seq<char>) -> Result<
    Seq<FrameView>,
    ScriptErrorView,
> {
    match raw {
        Value::Nil => Ok(Seq::empty()),
        Value::Array(_) => stream::entries_of(raw, FieldShape::Pairs),
        Value::Dict(pairs) => collect::all_ok(keyed_entries(pairs@)),
        other => Err(tail_error(expected + shown::shown(other))),
    }
}

/// Whether an item is a `[stream, entries]` pair of the stream.
pub open spec fn item_matches(item: Item, stream_key: Seq<char>) -> bool {
    match item {
        Ok(Value::Array(pair)) => pair@.len() == 2 && match pair@[0] {
            Ok(k) => names(k, stream_key),
            Err(_) => false,
        },
        _ => false,
    }
}

/// The frames of a `[stream, entries]` pair.
pub open spec fn item_frames(item: Item) -> Result<Seq<FrameView>, ScriptErrorView> {
    match item->Ok_0->Array_0@[1] {
        Ok(v) => tail_entries(v, "XREAD entries: expected Array/Map/Nil, got "@),
        Err(e) => Err(tail_error("XREAD entries (RESP2): "@ + e.text@)),
    }
}

/// The frames of the first pair of the stream in a list of pairs.
pub open spec fn list_frames(items: Seq<Item>, stream_key: Seq<char>) -> Result<
    Seq<FrameView>,
    ScriptErrorView,
>
    decreases items.len(),
{
    if items.len() == 0 {
        Ok(Seq::empty())
    } else if item_matches(items[0], stream_key) {
        item_frames(items[0])
    } else {
        list_frames(items.skip(1), stream_key)
    }
}

/// The frames of the first entry of the stream in a list of streams and entries.
pub open spec fn dict_frames(pairs: Seq<(Value, Value)>, stream_key: Seq<char>) -> Result<
    Seq<FrameView>,
    ScriptErrorView,
>
    decreases pairs.len(),
{
    if pairs.len() == 0 {
        Ok(Seq::empty())
    } else if names(pairs[0].0, stream_key) {
        tail_entries(pairs[0].1, "XREAD entries: expected Map/Array, got "@)
    } else {
        dict_frames(pairs.skip(1), stream_key)
    }
}

/// The frames of the stream in a tail reply. A reply without the stream, like a
/// timeout, has none.
pub open spec fn tail_frames(raw: Value, stream_key: Seq<char>) -> Result<
    Seq<FrameView>,
    ScriptErrorView,
> {
    match raw {
        Value::Nil => Ok(Seq::empty()),
        Value::Dict(pairs) => dict_frames(pairs@, stream_key),
        Value::Array(items) => list_frames(items@, stream_key),
        other => Err(
            tail_error("XREAD: expected Map/Nil/Array, got "@ + shown::shown(other)),
        ),
    }
}

fn key_names(k: &Value, stream_key: &str) -> (r: bool)
    ensures
        r == names(*k, stream_key@),
{
    match k {
        Value::BulkString(b) => text::same_bytes(b.as_slice(), stream_key.as_bytes()),
        Value::SimpleString(s) => text::same(s.as_str(), stream_key),
        _ => false,
    }
}

fn no_frames() -> (r: Vec<StreamFrame>)
    ensures
        stream::frames_view(r@) == Seq::<FrameView>::empty(),
{
    let none: Vec<StreamFrame> = Vec::new();
    assert(stream::frames_view(none@) =~= Seq::empty());
    none
}

fn read_keyed(pairs: &Vec<(Value, Value)>) -> (r: Result<Vec<StreamFrame>, ScriptError>)
    ensures
        stream::frames_read(r, collect::all_ok(keyed_entries(pairs@))),
{
    let ghost list = keyed_entries(pairs@);
    let mut frames = no_frames();
    let n: usize = pairs.len();
    let mut i: usize = 0;
    assert(list.take(0) =~= Seq::empty());
    while i < n
        invariant
            list == keyed_entries(pairs@),
            n == pairs@.len(),
            list.len() == n,
            i <= n,
            collect::all_ok(list.take(i as int)) == Ok::<Seq<FrameView>, ScriptErrorView>(
                stream::frames_view(frames@),
            ),
        decreases n - i,
    {
        let ghost before = frames@;
        proof {
            collect::lemma_all_ok_step(list, i as int);
        }
        let read = match value::value_to_string(Some(&pairs[i].0)) {
            Some(id) => stream::read_frame(id, &pairs[i].1, FieldShape::Pairs),
            None => Err(
                error::unreadable("parse_xread_reply", "XREAD entry: bad id".to_owned()),
            ),
        };
        match read {
            Ok(f) => {
                frames.push(f);
                assert(stream::frames_view(frames@) =~= stream::frames_view(before).push(f@));
            },
            Err(e) => {
                proof {
                    collect::lemma_all_ok_fails(list, i as int + 1);
                }
                return Err(e);
            },
        }
        i = i + 1;
    }
    assert(list.take(n as int) =~= list);
    Ok(frames)
}

/// Read the entries of one stream, in any of their shapes.
pub fn parse_entries_any(raw: &Value, expected: &str) -> (r: Result<Vec<StreamFrame>, ScriptError>)
    ensures
        stream::frames_read(r, tail_entries(*raw, expected@)),
{
    match raw {
        Value::Nil => Ok(no_frames()),
        Value::Array(_) => stream::parse_entries(raw, FieldShape::Pairs),
        Value::Dict(pairs) => read_keyed(pairs),
        other => Err(
            error::unreadable(
                "parse_xread_reply",
                shown::told(expected, other),
            ),
        ),
    }
}

fn read_list(items: &Vec<Item>, stream_key: &str) -> (r: Result<Vec<StreamFrame>, ScriptError>)
    ensures
        stream::frames_read(r, list_frames(items@, stream_key@)),
{
    let n: usize = items.len();
    let mut i: usize = 0;
    assert(items@.skip(0) =~= items@);
    while i < n
        invariant
            n == items@.len(),
            i <= n,
            list_frames(items@, stream_key@) == list_frames(items@.skip(i as int), stream_key@),
        decreases n - i,
    {
        assert(items@.skip(i as int)[0] == items@[i as int]);
        assert(items@.skip(i as int).skip(1) =~= items@.skip(i as int + 1));
        match &items[i] {
            Ok(Value::Array(pair)) => {
                if pair.len() == 2 {
                    let matched = match &pair[0] {
                        Ok(k) => key_names(k, stream_key),
                        Err(_) => false,
                    };
                    if matched {
                        return match &pair[1] {
                            Ok(v) => parse_entries_any(
                                v,
                                "XREAD entries: expected Array/Map/Nil, got ",
                            ),
                            Err(e) => Err(
                                error::unreadable(
                                    "parse_xread_reply",
                                    error::prefixed("XREAD entries (RESP2): ", e.text.as_str()),
                                ),
                            ),
                        };
                    }
                }
            },
            _ => {},
        }
        i = i + 1;
    }
    Ok(no_frames())
}

fn read_streams(pairs: &Vec<(Value, Value)>, stream_key: &str) -> (r: Result<
    Vec<StreamFrame>,
    ScriptError,
>)
    ensures
        stream::frames_read(r, dict_frames(pairs@, stream_key@)),
{
    let n: usize = pairs.len();
    let mut i: usize = 0;
    assert(pairs@.skip(0) =~= pairs@);
    while i < n
        invariant
            n == pairs@.len(),
            i <= n,
            dict_frames(pairs@, stream_key@) == dict_frames(pairs@.skip(i as int), stream_key@),
        decreases n - i,
    {
        assert(pairs@.skip(i as int)[0] == pairs@[i as int]);
        assert(pairs@.skip(i as int).skip(1) =~= pairs@.skip(i as int + 1));
        if key_names(&pairs[i].0, stream_key) {
            return parse_entries_any(&pairs[i].1, "XREAD entries: expected Map/Array, got ");
        }
        i = i + 1;
    }
    Ok(no_frames())
}

/// Read a tail reply for one stream, in any shape that the client produces.
pub fn parse_xread_reply(raw: &Value, stream_key: &str) -> (r: Result<
    Vec<StreamFrame>,
    ScriptError,
>)
    ensures
        stream::frames_read(r, tail_frames(*raw, stream_key@)),
{
    match raw {
        Value::Nil => Ok(no_frames()),
        Value::Dict(pairs) => read_streams(pairs, stream_key),
        Value::Array(items) => read_list(items, stream_key),
        other => Err(
            error::unreadable(
                "parse_xread_reply",
                shown::told("XREAD: expected Map/Nil/Array, got ", other),
            ),
        ),
    }
}

/// The result of a tail: the frames of the reply and the terminal markers.
pub fn tail_result(raw: &Value, stream_key: &str, meta: &Vec<Option<String>>) -> (r: Result<
    StreamFrames,
    ScriptError,
>)
    ensures
        match tail_frames(*raw, stream_key@) {
            Ok(frames) => r matches Ok(s) && stream::frames_view(
                s.frames@,
            ) == frames && s.closed_at == timestamp_of(marker(meta@, 0)) && text::opt_text(
                s.closed_reason,
            ) == marker(meta@, 1),
            Err(e) => r matches Err(x) && x@ == e,
        },
{
    match parse_xread_reply(raw, stream_key) {
        Ok(frames) => {
            let (closed_at, closed_reason) = closed_meta(meta);
            Ok(StreamFrames { frames, closed_at, closed_reason })
        },
        Err(e) => Err(e),
    }
}

// ── Laws ──

/// Whether a value has a shape in which the entries of a stream come.
pub open spec fn holds_entries(v: Value) -> bool {
    v is Nil || v is Array || v is Dict
}

/// A reply reads the same as a list of `[stream, entries]` pairs and as a list of
/// streams and entries.
pub proof fn law_protocols_agree(
    items: Seq<Item>,
    pairs: Seq<(Value, Value)>,
    stream_key: Seq<char>,
)
    requires
        items.len() == pairs.len(),
        forall|i: int|
            #![trigger items[i]]
            #![trigger pairs[i]]
            0 <= i < pairs.len() ==> holds_entries(pairs[i].1) && (
            items[i] matches Ok(Value::Array(pair)) && pair@ == seq![
                Ok::<Value, ServerError>(pairs[i].0),
                Ok::<Value, ServerError>(pairs[i].1),
            ]),
    ensures
        list_frames(items, stream_key) == dict_frames(pairs, stream_key),
    decreases pairs.len(),
{
    if pairs.len() > 0 {
        let first = pairs[0];
        assert(items[0] is Ok);
        let rest = pairs.skip(1);
        assert forall|i: int| 0 <= i < rest.len() implies holds_entries((#[trigger] rest[i]).1) && (
        items.skip(1)[i] matches Ok(Value::Array(pair)) && pair@ == seq![
            Ok::<Value, ServerError>(rest[i].0),
            Ok::<Value, ServerError>(rest[i].1),
        ]) by {
            assert(rest[i] == pairs[i + 1]);
        }
        law_protocols_agree(items.skip(1), rest, stream_key);
    }
}

} // verus!
