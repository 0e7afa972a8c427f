//! Places in an attempt's stream, and reads from them.

use vstd::prelude::*;
use vstd::string::*;

use crate::error::ScriptErrorView;
use crate::fields::FromFcallResult;
use crate::functions::stream;
use crate::functions::stream::{ReadFramesArgs, ReadFramesResult, ReadView, StreamOpKeys};
use crate::ids;
use crate::ids::{AttemptIndex, ExecutionId};
use crate::keys::ExecKeyContext;
use crate::numbers;
use crate::partition;
use crate::partition::{Partition, PartitionFamily};
use crate::sdk_error;
use crate::sdk_error::{SdkError, SdkErrorView};
use crate::stream::{StreamFrames, STREAM_READ_HARD_CAP};
use crate::stream_tail;
use crate::text;
use crate::value::Value;
use crate::wire::Call;

verus! {

/// The longest time that a tail may wait for new entries.
pub const MAX_TAIL_BLOCK_MS: u64 = 30_000;

/// A place in a stream.
#[derive(Debug)]
pub enum StreamCursor<S = String> {
    /// Before the first entry.
    Start,
    /// After the last entry.
    End,
    /// At an entry.
    At(S),
}

impl View for StreamCursor {
    type V = StreamCursor<Seq<char>>;

    open spec fn view(&self) -> StreamCursor<Seq<char>> {
        match *self {
            StreamCursor::Start => StreamCursor::Start,
            StreamCursor::End => StreamCursor::End,
            StreamCursor::At(s) => StreamCursor::At(s@),
        }
    }
}

/// The marker of a place on the wire.
pub open spec fn wire_text(c: StreamCursor<Seq<char>>) -> Seq<char> {
    match c {
        StreamCursor::Start => "-"@,
        StreamCursor::End => "+"@,
        StreamCursor::At(s) => s,
    }
}

impl StreamCursor {
    /// The place from which a tail sees every entry.
    pub fn from_beginning() -> (r: StreamCursor)
        ensures
            r@ == StreamCursor::At("0-0"@),
    {
        StreamCursor::At("0-0".to_owned())
    }

    /// The marker of the place on the wire.
    pub fn to_wire(&self) -> (r: &str)
        ensures
            r@ == wire_text(self@),
    {
        match self {
            StreamCursor::Start => "-",
            StreamCursor::End => "+",
            StreamCursor::At(s) => s.as_str(),
        }
    }

    /// Whether the place is at an entry.
    pub fn is_concrete(&self) -> (r: bool)
        ensures
            r == (self@ is At),
    {
        match self {
            StreamCursor::At(_) => true,
            _ => false,
        }
    }
}

/// The refusal of a tail from a place that is not at an entry.
pub open spec fn cursor_refusal(c: StreamCursor<Seq<char>>) -> Option<SdkErrorView> {
    if c is At {
        None
    } else {
        Some(
            sdk_error::field_error(
                "tail_stream"@,
                "after"@,
                "XREAD cursor must be a concrete entry id; pass StreamCursor::from_beginning() to start from the beginning"@,
            ),
        )
    }
}

/// A tail starts at an entry.
pub fn validate_tail_cursor(after: &StreamCursor) -> (r: Result<(), SdkError>)
    ensures
        match cursor_refusal(after@) {
            Some(e) => r matches Err(x) && x@ == e,
            None => r is Ok,
        },
{
    if !after.is_concrete() {
        return Err(
            sdk_error::bad_field(
                "tail_stream",
                "after",
                "XREAD cursor must be a concrete entry id; pass StreamCursor::from_beginning() to start from the beginning".to_owned(),
            ),
        );
    }
    Ok(())
}

/// The refusal of a read of no entries, or of too many.
pub open spec fn count_refusal(count_limit: u64) -> Option<SdkErrorView> {
    if count_limit == 0 {
        Some(
            sdk_error::field_error(
                "read_stream_frames"@,
                "count_limit"@,
                "count_limit must be >= 1"@,
            ),
        )
    } else if count_limit > STREAM_READ_HARD_CAP {
        Some(
            sdk_error::field_error(
                "read_stream_frames"@,
                "count_limit"@,
                "count_limit exceeds STREAM_READ_HARD_CAP (10000)"@,
            ),
        )
    } else {
        None
    }
}

/// A read is for at least one entry and at most `STREAM_READ_HARD_CAP`.
pub fn validate_stream_read_count(count_limit: u64) -> (r: Result<(), SdkError>)
    ensures
        match count_refusal(count_limit) {
            Some(e) => r matches Err(x) && x@ == e,
            None => r is Ok,
        },
{
    if count_limit == 0 {
        return Err(
            sdk_error::bad_field(
                "read_stream_frames",
                "count_limit",
                "count_limit must be >= 1".to_owned(),
            ),
        );
    }
    if count_limit > STREAM_READ_HARD_CAP {
        return Err(
            sdk_error::bad_field(
                "read_stream_frames",
                "count_limit",
                "count_limit exceeds STREAM_READ_HARD_CAP (10000)".to_owned(),
            ),
        );
    }
    Ok(())
}

/// The hash tag of the keys of an execution.
pub open spec fn tag_of(eid: Seq<char>, tag: Seq<char>) -> bool {
    exists|p: Partition|
        p.family == PartitionFamily::Execution && #[trigger] ids::tagged(eid, p.index) && tag
            == p.tag_spec()
}

/// The keys of an execution.
pub fn exec_keys(execution_id: &ExecutionId) -> (r: ExecKeyContext)
    ensures
        r.eid_spec() == execution_id@,
        tag_of(execution_id@, r.tag_spec()),
{
    let p = partition::execution_partition(execution_id);
    ExecKeyContext::new(&p, execution_id)
}

/// Ask for the entries of an attempt's stream between two places.
pub fn read_stream(
    ctx: &ExecKeyContext,
    attempt_index: AttemptIndex,
    from: &StreamCursor,
    to: &StreamCursor,
    count_limit: u64,
) -> (r: Result<Call, SdkError>)
    ensures
        match count_refusal(count_limit) {
            Some(e) => r matches Err(x) && x@ == e,
            None => r matches Ok(c) && c.function == "ff_read_attempt_stream" && c.keys_spec() == seq![
                ctx.stream_spec(attempt_index),
                ctx.stream_meta_spec(attempt_index),
            ] && c.argv_spec() == seq![
                wire_text(from@),
                wire_text(to@),
                numbers::decimal(count_limit as int),
            ],
        },
{
    match validate_stream_read_count(count_limit) {
        Err(e) => {
            return Err(e);
        },
        Ok(_) => {},
    }
    let args = ReadFramesArgs {
        attempt_index,
        from_id: from.to_wire().to_owned(),
        to_id: to.to_wire().to_owned(),
        count_limit,
    };
    Ok(stream::ff_read_attempt_stream(&StreamOpKeys { ctx }, &args))
}

/// The error of a read, as the client sees it.
pub open spec fn of_read(r: Result<ReadView, ScriptErrorView>) -> Result<ReadView, SdkErrorView> {
    match r {
        Ok(v) => Ok(v),
        Err(e) => Err(sdk_error::of_script(e)),
    }
}

/// Take the reply to [`read_stream`].
pub fn read_frames(raw: &Value) -> (r: Result<StreamFrames, SdkError>)
    ensures
        match r {
            Ok(f) => of_read(stream::read_reply(*raw)) == Ok::<ReadView, SdkErrorView>(
                ReadFramesResult::Frames(f)@,
            ),
            Err(e) => of_read(stream::read_reply(*raw)) == Err::<ReadView, SdkErrorView>(e@),
        },
{
    match ReadFramesResult::from_fcall_result(raw) {
        Ok(ReadFramesResult::Frames(f)) => Ok(f),
        Err(e) => Err(SdkError::from(e)),
    }
}

/// What a tail asks for.
pub struct TailRequest {
    pub stream_key: String,
    pub stream_meta_key: String,
    /// Arguments of the blocking read.
    pub words: Vec<String>,
}

/// The refusal of a tail: too long a wait, a bad count, or a bad place, in this
/// order.
pub open spec fn tail_refusal(
    after: StreamCursor<Seq<char>>,
    block_ms: u64,
    count_limit: u64,
) -> Option<SdkErrorView> {
    if block_ms > MAX_TAIL_BLOCK_MS {
        Some(sdk_error::field_error("tail_stream"@, "block_ms"@, "exceeds 30000ms ceiling"@))
    } else {
        match count_refusal(count_limit) {
            Some(e) => Some(e),
            None => cursor_refusal(after),
        }
    }
}

/// Ask for the entries of an attempt's stream after a place, waiting for them.
pub fn tail_stream(
    ctx: &ExecKeyContext,
    attempt_index: AttemptIndex,
    after: &StreamCursor,
    block_ms: u64,
    count_limit: u64,
) -> (r: Result<TailRequest, SdkError>)
    ensures
        match tail_refusal(after@, block_ms, count_limit) {
            Some(e) => r matches Err(x) && x@ == e,
            None => r matches Ok(t) && t.stream_key@ == ctx.stream_spec(attempt_index)
                && t.stream_meta_key@ == ctx.stream_meta_spec(attempt_index) && text::texts(
                t.words@,
            ) == stream_tail::xread_words(
                ctx.stream_spec(attempt_index),
                wire_text(after@),
                block_ms,
                count_limit,
            ),
        },
{
    if block_ms > MAX_TAIL_BLOCK_MS {
        return Err(
            sdk_error::bad_field("tail_stream", "block_ms", "exceeds 30000ms ceiling".to_owned()),
        );
    }
    match validate_stream_read_count(count_limit) {
        Err(e) => {
            return Err(e);
        },
        Ok(_) => {},
    }
    match validate_tail_cursor(after) {
        Err(e) => {
            return Err(e);
        },
        Ok(_) => {},
    }
    let stream_key = ctx.stream(attempt_index);
    let stream_meta_key = ctx.stream_meta(attempt_index);
    match stream_tail::xread_args(stream_key.as_str(), after.to_wire(), block_ms, count_limit) {
        Err(e) => Err(SdkError::from(e)),
        Ok(words) => Ok(TailRequest { stream_key, stream_meta_key, words }),
    }
}

} // verus!
