//! What a server writes is what is read: replies to calls on streams.

use vstd::prelude::*;
use vstd::string::*;

use crate::error::ScriptError;
use crate::error_laws;
use crate::fields::FromFcallResult;
use crate::functions::stream::{AppendFrameResult, ReadFramesResult};
use crate::laws::written::{refused, written};
use crate::laws::written;
use crate::numbers;
use crate::value::Value;

verus! {

/// An appended frame is read with its entry and the number of frames.
pub proof fn law_append_reads_back(raw: &Value, status: Seq<char>, id: Seq<char>, n: u64, r: Result<AppendFrameResult, ScriptError>)
    requires
        call_ensures(AppendFrameResult::from_fcall_result, (raw,), r),
        written(*raw, status, seq![id, numbers::decimal(n as int)]),
    ensures
        r matches Ok(AppendFrameResult::Appended { entry_id, frame_count }) && entry_id@ == id && frame_count == n,
{
    let f = written::lemma_written(*raw, status, seq![id, numbers::decimal(n as int)]);
    numbers::law_u64_round_trip(n);
}

/// A refused frame is the error whose code was written.
pub proof fn law_append_refusal(raw: &Value, e: ScriptError<Seq<char>>, r: Result<AppendFrameResult, ScriptError>)
    requires
        call_ensures(AppendFrameResult::from_fcall_result, (raw,), r),
        refused(*raw, e),
    ensures
        r matches Err(x) && x@ == error_laws::emptied(e),
{
    let f = written::lemma_refused(*raw, e);
}

/// A refused read is the error whose code was written.
pub proof fn law_read_refusal(raw: &Value, e: ScriptError<Seq<char>>, r: Result<ReadFramesResult, ScriptError>)
    requires
        call_ensures(ReadFramesResult::from_fcall_result, (raw,), r),
        refused(*raw, e),
    ensures
        r matches Err(x) && x@ == error_laws::emptied(e),
{
    let f = written::lemma_refused(*raw, e);
}

} // verus!
