//! Calls on the streams of attempts.

use vstd::prelude::*;
use vstd::string::*;

use crate::error;
use crate::error::{ScriptError, ScriptErrorView};
use crate::fields;
use crate::fields::FromFcallResult;
use crate::ids::{AttemptId, AttemptIndex, ExecutionId, LeaseEpoch, LeaseId, TimestampMs};
use crate::keys::ExecKeyContext;
use crate::numbers;
use crate::result;
use crate::result::FcallView;
use crate::stream;
use crate::stream::{FieldShape, FrameView, StreamFrames};
use crate::text;
use crate::value::Value;
use crate::wire;
use crate::wire::Call;

verus! {

/// Key context of a stream operation.
pub struct StreamOpKeys<'a> {
    pub ctx: &'a ExecKeyContext,
}

/// Arguments of [`ff_append_frame`].
pub struct AppendFrameArgs {
    pub execution_id: ExecutionId,
    pub attempt_index: AttemptIndex,
    pub lease_id: LeaseId,
    pub lease_epoch: LeaseEpoch,
    pub attempt_id: AttemptId,
    pub frame_type: String,
    pub timestamp: TimestampMs,
    pub payload: Vec<u8>,
    pub encoding: Option<String>,
    pub correlation_id: Option<String>,
    pub source: Option<String>,
    pub retention_maxlen: Option<u32>,
    pub max_payload_bytes: Option<u32>,
}

/// Append a frame to the stream of an attempt.
pub fn ff_append_frame(k: &StreamOpKeys, args: &AppendFrameArgs) -> (r: Call)
    ensures
        r.function == "ff_append_frame",
        r.keys_spec() == seq![
            k.ctx.core_key_spec(),
            k.ctx.stream_spec(args.attempt_index),
            k.ctx.stream_meta_spec(args.attempt_index),
        ],
        r.argv_spec() == seq![
            args.execution_id@,
            numbers::decimal(args.attempt_index.0 as int),
            args.lease_id@,
            numbers::decimal(args.lease_epoch.0 as int),
            args.frame_type@,
            numbers::decimal(args.timestamp.0 as int),
            text::lossy_text(args.payload@),
            wire::or_spec(args.encoding, "utf8"@),
            wire::or_spec(args.correlation_id, ""@),
            wire::or_spec(args.source, "worker"@),
            numbers::decimal(wire::or_u32_spec(args.retention_maxlen, 0) as int),
            args.attempt_id@,
            numbers::decimal(wire::or_u32_spec(args.max_payload_bytes, 65536) as int),
        ],
{
    let mut keys: Vec<String> = Vec::new();
    keys.push(k.ctx.core_key());
    keys.push(k.ctx.stream(args.attempt_index));
    keys.push(k.ctx.stream_meta(args.attempt_index));
    let mut argv: Vec<String> = Vec::new();
    argv.push(args.execution_id.as_str().to_owned());
    argv.push(numbers::u64_text(args.attempt_index.0 as u64));
    argv.push(args.lease_id.as_str().to_owned());
    argv.push(numbers::u64_text(args.lease_epoch.0));
    argv.push(args.frame_type.as_str().to_owned());
    argv.push(numbers::i64_text(args.timestamp.0));
    argv.push(text::lossy(args.payload.as_slice()));
    argv.push(wire::or_text(&args.encoding, "utf8"));
    argv.push(wire::or_text(&args.correlation_id, ""));
    argv.push(wire::or_text(&args.source, "worker"));
    argv.push(numbers::u64_text(wire::or_u32(args.retention_maxlen, 0) as u64));
    argv.push(args.attempt_id.as_str().to_owned());
    argv.push(numbers::u64_text(wire::or_u32(args.max_payload_bytes, 65536) as u64));
    Call { function: "ff_append_frame", keys, argv }
}

/// Arguments of [`ff_read_attempt_stream`].
pub struct ReadFramesArgs {
    pub attempt_index: AttemptIndex,
    pub from_id: String,
    pub to_id: String,
    pub count_limit: u64,
}

/// Read frames from the stream of an attempt.
pub fn ff_read_attempt_stream(k: &StreamOpKeys, args: &ReadFramesArgs) -> (r: Call)
    ensures
        r.function == "ff_read_attempt_stream",
        r.keys_spec() == seq![
            k.ctx.stream_spec(args.attempt_index),
            k.ctx.stream_meta_spec(args.attempt_index),
        ],
        r.argv_spec() == seq![
            args.from_id@,
            args.to_id@,
            numbers::decimal(args.count_limit as int),
        ],
{
    let mut keys: Vec<String> = Vec::new();
    keys.push(k.ctx.stream(args.attempt_index));
    keys.push(k.ctx.stream_meta(args.attempt_index));
    let mut argv: Vec<String> = Vec::new();
    argv.push(args.from_id.as_str().to_owned());
    argv.push(args.to_id.as_str().to_owned());
    argv.push(numbers::u64_text(args.count_limit));
    Call { function: "ff_read_attempt_stream", keys, argv }
}

/// Outcome of appending a frame.
#[derive(Debug)]
pub enum AppendFrameResult<S = String> {
    Appended { entry_id: S, frame_count: u64 },
}

impl View for AppendFrameResult {
    type V = AppendFrameResult<Seq<char>>;

    open spec fn view(&self) -> AppendFrameResult<Seq<char>> {
        match *self {
            AppendFrameResult::Appended { entry_id, frame_count } => AppendFrameResult::Appended {
                entry_id: entry_id@,
                frame_count,
            },
        }
    }
}

/// The meaning of a reply to appending a frame.
pub open spec fn append_reply(raw: Value) -> Result<AppendFrameResult<Seq<char>>, ScriptErrorView> {
    match result::accepted(raw) {
        Err(e) => Err(e),
        Ok(f) => match fields::u64_spec(f, 1, "ff_append_frame"@, "bad frame_count: "@) {
            Err(e) => Err(e),
            Ok(frame_count) => Ok(
                AppendFrameResult::Appended { entry_id: f.field(0), frame_count },
            ),
        },
    }
}

impl FromFcallResult for AppendFrameResult {
    fn from_fcall_result(raw: &Value) -> (r: Result<AppendFrameResult, ScriptError>)
        ensures
            fields::agrees(r, append_reply(*raw)),
    {
        match result::accept(raw) {
            Err(e) => Err(e),
            Ok(f) => match fields::u64_field(&f, 1, "ff_append_frame", "bad frame_count: ") {
                Err(e) => Err(e),
                Ok(frame_count) => Ok(
                    AppendFrameResult::Appended { entry_id: f.field_str(0), frame_count },
                ),
            },
        }
    }
}

/// Outcome of a read.
#[derive(Debug)]
pub enum ReadFramesResult {
    Frames(StreamFrames),
}

/// The model of a read: frames, time of closing and reason of closing.
pub struct ReadView {
    pub frames: Seq<FrameView>,
    pub closed_at: Option<i64>,
    pub closed_reason: Option<Seq<char>>,
}

impl View for ReadFramesResult {
    type V = ReadView;

    open spec fn view(&self) -> ReadView {
        match *self {
            ReadFramesResult::Frames(s) => ReadView {
                frames: stream::frames_view(s.frames@),
                closed_at: s.closed_at,
                closed_reason: text::opt_text(s.closed_reason),
            },
        }
    }
}

/// The time of closing in field 1: nothing when it is empty or no number.
pub open spec fn closed_at_of(f: FcallView) -> Option<i64> {
    match numbers::parse_i64_spec(f.field(1)) {
        Ok(n) => Some(n),
        Err(_) => None,
    }
}

/// The meaning of a reply to a read: the entries, and how the stream ended.
pub open spec fn read_reply(raw: Value) -> Result<ReadView, ScriptErrorView> {
    match result::accepted(raw) {
        Err(e) => Err(e),
        Ok(f) => if f.fields.len() == 0 {
            Err(error::parse_error("ff_read_attempt_stream"@, "missing entries field"@))
        } else {
            match stream::entries_of(f.fields[0], FieldShape::Flat) {
                Err(e) => Err(e),
                Ok(frames) => Ok(
                    ReadView {
                        frames,
                        closed_at: closed_at_of(f),
                        closed_reason: if f.field(2).len() == 0 {
                            None
                        } else {
                            Some(f.field(2))
                        },
                    },
                ),
            }
        },
    }
}

impl FromFcallResult for ReadFramesResult {
    fn from_fcall_result(raw: &Value) -> (r: Result<ReadFramesResult, ScriptError>)
        ensures
            fields::agrees(r, read_reply(*raw)),
    {
        let f = match result::accept(raw) {
            Ok(f) => f,
            Err(e) => {
                return Err(e);
            },
        };
        if f.fields.len() == 0 {
            return Err(
                error::unreadable("ff_read_attempt_stream", "missing entries field".to_owned()),
            );
        }
        let frames = match stream::parse_entries(f.fields[0], FieldShape::Flat) {
            Ok(frames) => frames,
            Err(e) => {
                return Err(e);
            },
        };
        let closed_at_text = f.field_str(1);
        let closed_at: Option<i64> = if closed_at_text.as_str().is_empty() {
            None
        } else {
            match numbers::parse_i64(closed_at_text.as_str()) {
                Ok(n) => Some(n),
                Err(_) => None,
            }
        };
        let reason = f.field_str(2);
        let closed_reason = if reason.as_str().is_empty() {
            None
        } else {
            Some(reason)
        };
        Ok(ReadFramesResult::Frames(StreamFrames { frames, closed_at, closed_reason }))
    }
}

} // verus!
