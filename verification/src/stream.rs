//! Output streams of attempts: reading the entries of a stream reply.

use vstd::prelude::*;
use vstd::string::*;

use crate::collect;
use crate::error;
use crate::error::{ScriptError, ScriptErrorView, ServerError};
use crate::field_map;
use crate::field_map::FieldMap;
use crate::numbers;
use crate::shown;
use crate::value;
use crate::value::{Item, Value};

verus! {

/// The most frames that one read may ask for.
pub const STREAM_READ_HARD_CAP: u64 = 10_000;

/// One entry of a stream.
#[derive(Debug)]
pub struct StreamFrame {
    pub id: String,
    pub fields: FieldMap,
}

/// The model of [`StreamFrame`].
pub struct FrameView {
    pub id: Seq<char>,
    pub fields: Map<Seq<char>, Seq<char>>,
}

impl View for StreamFrame {
    type V = FrameView;

    open spec fn view(&self) -> FrameView {
        FrameView { id: self.id@, fields: self.fields@ }
    }
}

/// The models of a list of frames.
pub open spec fn frames_view(frames: Seq<StreamFrame>) -> Seq<FrameView> {
    frames.map_values(|f: StreamFrame| f@)
}

/// Frames of a stream, and how the stream ended if it did.
#[derive(Debug)]
pub struct StreamFrames {
    pub frames: Vec<StreamFrame>,
    /// When the producer closed the stream, in Unix milliseconds.
    pub closed_at: Option<i64>,
    pub closed_reason: Option<String>,
}

impl StreamFrames {
    /// Whether the producer has closed the stream.
    pub fn is_closed(&self) -> (r: bool)
        ensures
            r == self.closed_at is Some,
    {
        self.closed_at.is_some()
    }
}

/// How the fields of an entry are laid out. The caller knows which command it
/// sent, and thereby the layout; the data alone cannot tell.
#[derive(Clone, Copy, Debug, PartialEq, Eq, Structural)]
pub enum FieldShape {
    /// `[k, v, k, v, ...]`, as server functions answer.
    Flat,
    /// `[[k, v], [k, v], ...]`, as the client adapts stream commands.
    Pairs,
    /// A list of keys and values.
    Dict,
}

// ── Field payloads ──

/// A payload that cannot be read.
pub open spec fn fields_error(message: Seq<char>) -> ScriptErrorView {
    error::parse_error("parse_fields_kv"@, message)
}

/// A key and a value: the key must be a scalar, and a value that is none reads
/// as empty.
pub open spec fn pair_of(k: Option<Value>, v: Option<Value>) -> Result<
    (Seq<char>, Seq<char>),
    ScriptErrorView,
> {
    match value::scalar_text(k) {
        Some(key) => Ok((key, value::or_empty(value::scalar_text(v)))),
        None => Err(fields_error("stream field: bad key"@)),
    }
}

/// The key and value of one `[k, v]` item.
pub open spec fn nested_pair(item: Item) -> Result<(Seq<char>, Seq<char>), ScriptErrorView> {
    match item {
        Ok(Value::Array(inner)) => if inner@.len() != 2 {
            Err(
                fields_error(
                    "stream fields (Pairs): expected len=2, got "@ + numbers::decimal(
                        inner@.len() as int,
                    ),
                ),
            )
        } else {
            pair_of(value::value_at(inner@, 0), value::value_at(inner@, 1))
        },
        _ => Err(fields_error("stream fields (Pairs): expected 2-element Array per entry"@)),
    }
}

/// The keys and values of a payload, in order.
pub open spec fn field_pairs(v: Value, shape: FieldShape) -> Result<
    Seq<(Seq<char>, Seq<char>)>,
    ScriptErrorView,
> {
    match (shape, v) {
        (_, Value::Nil) => Ok(Seq::empty()),
        (FieldShape::Flat, Value::Array(items)) => if items@.len() % 2 != 0 {
            Err(
                fields_error(
                    "stream fields (Flat): odd element count "@ + numbers::decimal(
                        items@.len() as int,
                    ),
                ),
            )
        } else {
            collect::all_ok(flat_pairs(items@))
        },
        (FieldShape::Pairs, Value::Array(items)) => collect::all_ok(nested_pairs(items@)),
        (FieldShape::Dict, Value::Dict(pairs)) => collect::all_ok(dict_pairs(pairs@)),
        (FieldShape::Flat, other) => Err(
            fields_error("stream fields (Flat): expected Array, got "@ + shown::shown(other)),
        ),
        (FieldShape::Pairs, other) => Err(
            fields_error("stream fields (Pairs): expected Array, got "@ + shown::shown(other)),
        ),
        (FieldShape::Dict, other) => Err(
            fields_error("stream fields (Map): expected Map, got "@ + shown::shown(other)),
        ),
    }
}

/// The pairs of an alternating list.
pub open spec fn flat_pairs(items: Seq<Item>) -> Seq<
    Result<(Seq<char>, Seq<char>), ScriptErrorView>,
> {
    Seq::new(
        items.len() / 2,
        |i: int| pair_of(value::value_at(items, 2 * i), value::value_at(items, 2 * i + 1)),
    )
}

/// The pairs of a list of pairs.
pub open spec fn nested_pairs(items: Seq<Item>) -> Seq<
    Result<(Seq<char>, Seq<char>), ScriptErrorView>,
> {
    Seq::new(items.len(), |i: int| nested_pair(items[i]))
}

/// The pairs of a list of keys and values.
pub open spec fn dict_pairs(pairs: Seq<(Value, Value)>) -> Seq<
    Result<(Seq<char>, Seq<char>), ScriptErrorView>,
> {
    Seq::new(pairs.len(), |i: int| pair_of(Some(pairs[i].0), Some(pairs[i].1)))
}

/// The fields of a payload: a later key replaces an earlier one.
pub open spec fn fields_of(v: Value, shape: FieldShape) -> Result<
    Map<Seq<char>, Seq<char>>,
    ScriptErrorView,
> {
    mapped(field_pairs(v, shape))
}

/// The map of the pairs that were read.
pub open spec fn mapped(pairs: Result<Seq<(Seq<char>, Seq<char>)>, ScriptErrorView>) -> Result<
    Map<Seq<char>, Seq<char>>,
    ScriptErrorView,
> {
    match pairs {
        Ok(p) => Ok(field_map::map_of(p)),
        Err(e) => Err(e),
    }
}

/// `r` is what `want` says: the same fields, or the same error.
pub open spec fn reads(
    r: Result<FieldMap, ScriptError>,
    want: Result<Map<Seq<char>, Seq<char>>, ScriptErrorView>,
) -> bool {
    match r {
        Ok(m) => want == Ok::<Map<Seq<char>, Seq<char>>, ScriptErrorView>(m@),
        Err(e) => want == Err::<Map<Seq<char>, Seq<char>>, ScriptErrorView>(e@),
    }
}

fn read_pair(k: Option<&Value>, v: Option<&Value>) -> (r: Result<(String, String), ScriptError>)
    ensures
        match r {
            Ok(p) => pair_of(value::deref_opt(k), value::deref_opt(v)) == Ok::<
                (Seq<char>, Seq<char>),
                ScriptErrorView,
            >((p.0@, p.1@)),
            Err(e) => pair_of(value::deref_opt(k), value::deref_opt(v)) == Err::<
                (Seq<char>, Seq<char>),
                ScriptErrorView,
            >(e@),
        },
{
    match value::value_to_string(k) {
        Some(key) => Ok((key, value::or_default(value::value_to_string(v)))),
        None => Err(error::unreadable("parse_fields_kv", "stream field: bad key".to_owned())),
    }
}

fn read_nested(item: &Item) -> (r: Result<(String, String), ScriptError>)
    ensures
        match r {
            Ok(p) => nested_pair(*item) == Ok::<(Seq<char>, Seq<char>), ScriptErrorView>(
                (p.0@, p.1@),
            ),
            Err(e) => nested_pair(*item) == Err::<(Seq<char>, Seq<char>), ScriptErrorView>(
                e@,
            ),
        },
{
    match item {
        Ok(Value::Array(inner)) => {
            if inner.len() != 2 {
                let mut message = "stream fields (Pairs): expected len=2, got ".to_owned();
                message.append(numbers::u64_text(inner.len() as u64).as_str());
                return Err(error::unreadable("parse_fields_kv", message));
            }
            read_pair(value::at(inner, 0), value::at(inner, 1))
        },
        _ => Err(
            error::unreadable(
                "parse_fields_kv",
                "stream fields (Pairs): expected 2-element Array per entry".to_owned(),
            ),
        ),
    }
}

fn wrong_shape(prefix: &str, v: &Value) -> (r: ScriptError)
    ensures
        r@ == fields_error(prefix@ + shown::shown(*v)),
{
    error::unreadable("parse_fields_kv", shown::told(prefix, v))
}

fn read_flat(items: &Vec<Item>) -> (r: Result<FieldMap, ScriptError>)
    requires
        items@.len() % 2 == 0,
    ensures
        reads(r, mapped(collect::all_ok(flat_pairs(items@)))),
{
    let ghost list = flat_pairs(items@);
    let mut out = FieldMap::new();
    let n: usize = items.len();
    let half: usize = n / 2;
    let mut i: usize = 0;
    assert(list.take(0) =~= Seq::empty());
    while i < half
        invariant
            list == flat_pairs(items@),
            n == items@.len(),
            half == n / 2,
            n % 2 == 0,
            list.len() == half,
            i <= half,
            collect::all_ok(list.take(i as int)) matches Ok(p) && out@ == field_map::map_of(p),
        decreases half - i,
    {
        let ghost done = collect::all_ok(list.take(i as int))->Ok_0;
        proof {
            collect::lemma_all_ok_step(list, i as int);
        }
        match read_pair(value::at(items, 2 * i), value::at(items, 2 * i + 1)) {
            Ok(p) => {
                assert(done.push((p.0@, p.1@)).drop_last() =~= done);
                out.insert(p.0, p.1);
            },
            Err(e) => {
                proof {
                    collect::lemma_all_ok_fails(list, i as int + 1);
                }
                return Err(e);
            },
        }
        i = i + 1;
    }
    assert(list.take(half as int) =~= list);
    Ok(out)
}

fn read_pairs(items: &Vec<Item>) -> (r: Result<FieldMap, ScriptError>)
    ensures
        reads(r, mapped(collect::all_ok(nested_pairs(items@)))),
{
    let ghost list = nested_pairs(items@);
    let mut out = FieldMap::new();
    let n: usize = items.len();
    let mut i: usize = 0;
    assert(list.take(0) =~= Seq::empty());
    while i < n
        invariant
            list == nested_pairs(items@),
            n == items@.len(),
            list.len() == n,
            i <= n,
            collect::all_ok(list.take(i as int)) matches Ok(p) && out@ == field_map::map_of(p),
        decreases n - i,
    {
        let ghost done = collect::all_ok(list.take(i as int))->Ok_0;
        proof {
            collect::lemma_all_ok_step(list, i as int);
        }
        match read_nested(&items[i]) {
            Ok(p) => {
                assert(done.push((p.0@, p.1@)).drop_last() =~= done);
                out.insert(p.0, p.1);
            },
            Err(e) => {
                proof {
                    collect::lemma_all_ok_fails(list, i as int + 1);
                }
                return Err(e);
            },
        }
        i = i + 1;
    }
    assert(list.take(n as int) =~= list);
    Ok(out)
}

fn read_dict(pairs: &Vec<(Value, Value)>) -> (r: Result<FieldMap, ScriptError>)
    ensures
        reads(r, mapped(collect::all_ok(dict_pairs(pairs@)))),
{
    let ghost list = dict_pairs(pairs@);
    let mut out = FieldMap::new();
    let n: usize = pairs.len();
    let mut i: usize = 0;
    assert(list.take(0) =~= Seq::empty());
    while i < n
        invariant
            list == dict_pairs(pairs@),
            n == pairs@.len(),
            list.len() == n,
            i <= n,
            collect::all_ok(list.take(i as int)) matches Ok(p) && out@ == field_map::map_of(p),
        decreases n - i,
    {
        let ghost done = collect::all_ok(list.take(i as int))->Ok_0;
        proof {
            collect::lemma_all_ok_step(list, i as int);
        }
        match read_pair(Some(&pairs[i].0), Some(&pairs[i].1)) {
            Ok(p) => {
                assert(done.push((p.0@, p.1@)).drop_last() =~= done);
                out.insert(p.0, p.1);
            },
            Err(e) => {
                proof {
                    collect::lemma_all_ok_fails(list, i as int + 1);
                }
                return Err(e);
            },
        }
        i = i + 1;
    }
    assert(list.take(n as int) =~= list);
    Ok(out)
}

/// Read the fields of an entry. `Nil` is an entry without fields.
pub fn parse_fields_kv(v: &Value, shape: FieldShape) -> (r: Result<FieldMap, ScriptError>)
    ensures
        reads(r, fields_of(*v, shape)),
{
    match v {
        Value::Nil => {
            return Ok(FieldMap::new());
        },
        _ => {},
    }
    match shape {
        FieldShape::Flat => match v {
            Value::Array(items) => {
                if items.len() % 2 != 0 {
                    let mut message = "stream fields (Flat): odd element count ".to_owned();
                    message.append(numbers::u64_text(items.len() as u64).as_str());
                    return Err(error::unreadable("parse_fields_kv", message));
                }
                read_flat(items)
            },
            other => Err(wrong_shape("stream fields (Flat): expected Array, got ", other)),
        },
        FieldShape::Pairs => match v {
            Value::Array(items) => read_pairs(items),
            other => Err(wrong_shape("stream fields (Pairs): expected Array, got ", other)),
        },
        FieldShape::Dict => match v {
            Value::Dict(pairs) => read_dict(pairs),
            other => Err(wrong_shape("stream fields (Map): expected Map, got ", other)),
        },
    }
}

// ── Entries ──

/// An entry list that cannot be read.
pub open spec fn entries_error(message: Seq<char>) -> ScriptErrorView {
    error::parse_error("parse_entries"@, message)
}

/// A frame with an id and a payload.
pub open spec fn frame_of(id: Seq<char>, payload: Value, shape: FieldShape) -> Result<
    FrameView,
    ScriptErrorView,
> {
    match fields_of(payload, shape) {
        Ok(fields) => Ok(FrameView { id, fields }),
        Err(e) => Err(e),
    }
}

/// One `[id, fields]` entry.
pub open spec fn entry_of(item: Item, shape: FieldShape) -> Result<FrameView, ScriptErrorView> {
    match item {
        Err(e) => Err(entries_error("XRANGE entry error: "@ + e.text@)),
        Ok(Value::Array(parts)) => if parts@.len() != 2 {
            Err(
                entries_error(
                    "XRANGE entry: expected 2 elements, got "@ + numbers::decimal(
                        parts@.len() as int,
                    ),
                ),
            )
        } else {
            match value::scalar_text(value::value_at(parts@, 0)) {
                None => Err(entries_error("XRANGE entry: missing/invalid id"@)),
                Some(id) => match parts@[1] {
                    Err(e) => Err(entries_error("XRANGE entry fields error: "@ + e.text@)),
                    Ok(v) => frame_of(id, v, shape),
                },
            }
        },
        Ok(other) => Err(
            entries_error("XRANGE entry: expected Array, got "@ + shown::shown(other)),
        ),
    }
}

/// The entries of a list.
pub open spec fn entry_list(items: Seq<Item>, shape: FieldShape) -> Seq<
    Result<FrameView, ScriptErrorView>,
> {
    Seq::new(items.len(), |i: int| entry_of(items[i], shape))
}

/// The frames of a list of `[id, fields]` entries. `Nil` is the empty list.
pub open spec fn entries_of(raw: Value, shape: FieldShape) -> Result<
    Seq<FrameView>,
    ScriptErrorView,
> {
    match raw {
        Value::Array(items) => collect::all_ok(entry_list(items@, shape)),
        Value::Nil => Ok(Seq::empty()),
        other => Err(
            entries_error(
                "XRANGE/XREAD entries: expected Array, got "@ + shown::shown(other),
            ),
        ),
    }
}

/// `r` is what `want` says: the same frame, or the same error.
pub open spec fn frame_reads(
    r: Result<StreamFrame, ScriptError>,
    want: Result<FrameView, ScriptErrorView>,
) -> bool {
    match r {
        Ok(f) => want == Ok::<FrameView, ScriptErrorView>(f@),
        Err(e) => want == Err::<FrameView, ScriptErrorView>(e@),
    }
}

/// `r` is what `want` says: the same frames, or the same error.
pub open spec fn frames_read(
    r: Result<Vec<StreamFrame>, ScriptError>,
    want: Result<Seq<FrameView>, ScriptErrorView>,
) -> bool {
    match r {
        Ok(v) => want == Ok::<Seq<FrameView>, ScriptErrorView>(frames_view(v@)),
        Err(e) => want == Err::<Seq<FrameView>, ScriptErrorView>(e@),
    }
}

/// Read a frame with a known id.
pub(crate) fn read_frame(id: String, payload: &Value, shape: FieldShape) -> (r: Result<
    StreamFrame,
    ScriptError,
>)
    ensures
        frame_reads(r, frame_of(id@, *payload, shape)),
{
    match parse_fields_kv(payload, shape) {
        Ok(fields) => Ok(StreamFrame { id, fields }),
        Err(e) => Err(e),
    }
}

fn read_entry(item: &Item, shape: FieldShape) -> (r: Result<StreamFrame, ScriptError>)
    ensures
        frame_reads(r, entry_of(*item, shape)),
{
    match item {
        Err(e) => Err(
            error::unreadable(
                "parse_entries",
                error::prefixed("XRANGE entry error: ", e.text.as_str()),
            ),
        ),
        Ok(Value::Array(parts)) => {
            if parts.len() != 2 {
                let mut message = "XRANGE entry: expected 2 elements, got ".to_owned();
                message.append(numbers::u64_text(parts.len() as u64).as_str());
                return Err(error::unreadable("parse_entries", message));
            }
            match value::value_to_string(value::at(parts, 0)) {
                None => Err(
                    error::unreadable(
                        "parse_entries",
                        "XRANGE entry: missing/invalid id".to_owned(),
                    ),
                ),
                Some(id) => match &parts[1] {
                    Err(e) => Err(
                        error::unreadable(
                            "parse_entries",
                            error::prefixed("XRANGE entry fields error: ", e.text.as_str()),
                        ),
                    ),
                    Ok(v) => read_frame(id, v, shape),
                },
            }
        },
        Ok(other) => Err(
            error::unreadable(
                "parse_entries",
                shown::told("XRANGE entry: expected Array, got ", other),
            ),
        ),
    }
}

/// Read a list of `[id, fields]` entries whose fields have the given layout.
pub fn parse_entries(raw: &Value, shape: FieldShape) -> (r: Result<Vec<StreamFrame>, ScriptError>)
    ensures
        frames_read(r, entries_of(*raw, shape)),
{
    let items = match raw {
        Value::Array(items) => items,
        Value::Nil => {
            let none: Vec<StreamFrame> = Vec::new();
            assert(frames_view(none@) =~= Seq::empty());
            return Ok(none);
        },
        other => {
            return Err(
                error::unreadable(
                    "parse_entries",
                    shown::told("XRANGE/XREAD entries: expected Array, got ", other),
                ),
            );
        },
    };
    let ghost list = entry_list(items@, shape);
    let mut frames: Vec<StreamFrame> = Vec::new();
    let n: usize = items.len();
    let mut i: usize = 0;
    assert(list.take(0) =~= Seq::empty());
    assert(frames_view(frames@) =~= Seq::empty());
    while i < n
        invariant
            list == entry_list(items@, shape),
            entries_of(*raw, shape) == collect::all_ok(list),
            n == items@.len(),
            list.len() == n,
            i <= n,
            collect::all_ok(list.take(i as int)) == Ok::<Seq<FrameView>, ScriptErrorView>(
                frames_view(frames@),
            ),
        decreases n - i,
    {
        let ghost before = frames@;
        proof {
            collect::lemma_all_ok_step(list, i as int);
        }
        match read_entry(&items[i], shape) {
            Ok(f) => {
                frames.push(f);
                assert(frames_view(frames@) =~= frames_view(before).push(f@));
            },
            Err(e) => {
                proof {
                    collect::lemma_all_ok_fails(list, i as int + 1);
                }
                return Err(e);
            },
        }
        i = i + 1;
    }
    assert(list.take(n as int) =~= list);
    Ok(frames)
}

// ── Laws ──

/// The same keys and values read the same in every layout.
pub proof fn law_layouts_agree(flat: Vec<Item>, nested: Vec<Item>, dict: Vec<(Value, Value)>)
    requires
        flat@.len() == 2 * dict@.len(),
        nested@.len() == dict@.len(),
        forall|i: int|
            #![trigger flat@[2 * i]]
            #![trigger dict@[i]]
            0 <= i < dict@.len() ==> flat@[2 * i] == Ok::<Value, ServerError>(
                dict@[i].0,
            ) && flat@[2 * i + 1] == Ok::<Value, ServerError>(dict@[i].1),
        forall|i: int|
            #![trigger nested@[i]]
            #![trigger dict@[i]]
            0 <= i < dict@.len() ==> (nested@[i] matches Ok(Value::Array(inner)) && inner@ == seq![
                Ok::<Value, ServerError>(dict@[i].0),
                Ok::<Value, ServerError>(dict@[i].1),
            ]),
    ensures
        fields_of(Value::Array(flat), FieldShape::Flat) == fields_of(
            Value::Dict(dict),
            FieldShape::Dict,
        ),
        fields_of(Value::Array(nested), FieldShape::Pairs) == fields_of(
            Value::Dict(dict),
            FieldShape::Dict,
        ),
{
    let want = dict_pairs(dict@);
    assert(flat_pairs(flat@) =~= want) by {
        assert forall|i: int| 0 <= i < want.len() implies flat_pairs(flat@)[i] == want[i] by {
            let pair = dict@[i];
            assert(flat@[2 * i] == Ok::<Value, ServerError>(pair.0));
        }
    }
    assert(nested_pairs(nested@) =~= want) by {
        assert forall|i: int| 0 <= i < want.len() implies nested_pairs(nested@)[i] == want[i] by {
            let pair = dict@[i];
            assert(nested@[i] is Ok);
        }
    }
}

} // verus!
