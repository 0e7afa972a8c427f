//! What a server writes is what is read: replies to calls on signals.

use vstd::prelude::*;
use vstd::string::*;

use crate::error::ScriptError;
use crate::error_laws;
use crate::fields::FromFcallResult;
use crate::functions::signal::{BufferSignalResult, ClaimedResumedExecutionPartial, DeliverSignalResult};
use crate::ids;
use crate::laws::written::{refused, written};
use crate::laws::written;
use crate::numbers;
use crate::value::Value;

verus! {

/// An accepted signal is read with its identity and its effect.
pub proof fn law_deliver_reads_back(raw: &Value, id: Seq<char>, what: Seq<char>, r: Result<DeliverSignalResult, ScriptError>)
    requires
        call_ensures(DeliverSignalResult::from_fcall_result, (raw,), r),
        written(*raw, "OK"@, seq![id, what]),
        ids::canonical_uuid(id),
    ensures
        r matches Ok(DeliverSignalResult::Accepted { signal_id, effect }) && signal_id@ == id && effect@ == what,
{
    let f = written::lemma_written(*raw, "OK"@, seq![id, what]);
    reveal_strlit("OK");
    reveal_strlit("DUPLICATE");
    assert("OK"@.len() == 2);
    assert("DUPLICATE"@.len() == 9);
}

/// A signal that came before is read as the earlier one.
pub proof fn law_deliver_duplicate(raw: &Value, id: Seq<char>, r: Result<DeliverSignalResult, ScriptError>)
    requires
        call_ensures(DeliverSignalResult::from_fcall_result, (raw,), r),
        written(*raw, "DUPLICATE"@, seq![id]),
        ids::canonical_uuid(id),
    ensures
        r matches Ok(DeliverSignalResult::Duplicate { existing_signal_id }) && existing_signal_id@ == id,
{
    let f = written::lemma_written(*raw, "DUPLICATE"@, seq![id]);
}

/// A refused signal is the error whose code was written.
pub proof fn law_deliver_refusal(raw: &Value, e: ScriptError<Seq<char>>, r: Result<DeliverSignalResult, ScriptError>)
    requires
        call_ensures(DeliverSignalResult::from_fcall_result, (raw,), r),
        refused(*raw, e),
    ensures
        r matches Err(x) && x@ == error_laws::emptied(e),
{
    let f = written::lemma_refused(*raw, e);
    error_laws::lemma_code_is_lower(e);
    reveal_strlit("DUPLICATE");
}

/// A buffered signal is read with its identity.
pub proof fn law_buffer_reads_back(raw: &Value, id: Seq<char>, r: Result<BufferSignalResult, ScriptError>)
    requires
        call_ensures(BufferSignalResult::from_fcall_result, (raw,), r),
        written(*raw, "OK"@, seq![id]),
        ids::canonical_uuid(id),
    ensures
        r matches Ok(BufferSignalResult::Buffered { signal_id }) && signal_id@ == id,
{
    let f = written::lemma_written(*raw, "OK"@, seq![id]);
    reveal_strlit("OK");
    reveal_strlit("DUPLICATE");
    assert("OK"@.len() == 2);
    assert("DUPLICATE"@.len() == 9);
}

/// A signal that was buffered before is read as the earlier one.
pub proof fn law_buffer_duplicate(raw: &Value, id: Seq<char>, r: Result<BufferSignalResult, ScriptError>)
    requires
        call_ensures(BufferSignalResult::from_fcall_result, (raw,), r),
        written(*raw, "DUPLICATE"@, seq![id]),
        ids::canonical_uuid(id),
    ensures
        r matches Ok(BufferSignalResult::Duplicate { existing_signal_id }) && existing_signal_id@ == id,
{
    let f = written::lemma_written(*raw, "DUPLICATE"@, seq![id]);
}

/// A refused signal is the error whose code was written.
pub proof fn law_buffer_refusal(raw: &Value, e: ScriptError<Seq<char>>, r: Result<BufferSignalResult, ScriptError>)
    requires
        call_ensures(BufferSignalResult::from_fcall_result, (raw,), r),
        refused(*raw, e),
    ensures
        r matches Err(x) && x@ == error_laws::emptied(e),
{
    let f = written::lemma_refused(*raw, e);
    error_laws::lemma_code_is_lower(e);
    reveal_strlit("DUPLICATE");
}

/// A claim of a resumed execution is read with the lease, the epoch, the expiry, the attempt and its index that were written, each as itself.
pub proof fn law_resumed_claim_reads_back(raw: &Value, status: Seq<char>, l: Seq<char>, e: u64, t: i64, a: Seq<char>, i: u32, r: Result<ClaimedResumedExecutionPartial, ScriptError>)
    requires
        call_ensures(ClaimedResumedExecutionPartial::from_fcall_result, (raw,), r),
        written(*raw, status, seq![l, numbers::decimal(e as int), numbers::decimal(t as int), a, numbers::decimal(i as int)]),
        ids::canonical_uuid(l),
        ids::canonical_uuid(a),
    ensures
        r matches Ok(p) && p.lease_id@ == l && p.lease_epoch.0 == e && p.lease_expires_at.0 == t && p.attempt_id@ == a && p.attempt_index.0 == i,
{
    let f = written::lemma_written(*raw, status, seq![l, numbers::decimal(e as int), numbers::decimal(t as int), a, numbers::decimal(i as int)]);
    numbers::law_u64_round_trip(e);
    numbers::law_i64_round_trip(t);
    numbers::law_u32_round_trip(i);
}

/// A refused claim is the error whose code was written.
pub proof fn law_resumed_claim_refusal(raw: &Value, e: ScriptError<Seq<char>>, r: Result<ClaimedResumedExecutionPartial, ScriptError>)
    requires
        call_ensures(ClaimedResumedExecutionPartial::from_fcall_result, (raw,), r),
        refused(*raw, e),
    ensures
        r matches Err(x) && x@ == error_laws::emptied(e),
{
    let f = written::lemma_refused(*raw, e);
}

} // verus!
