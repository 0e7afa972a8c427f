//! What a server writes is what is read: replies to calls of the registry of workers.

use vstd::prelude::*;
use vstd::string::*;

use crate::error::ScriptError;
use crate::error_laws;
use crate::fields::FromFcallResult;
use crate::functions::worker_registry::{HeartbeatReplyTag, HeartbeatWorkerReply, RegisterWorkerOutcome};
use crate::laws::written::{refused, written};
use crate::laws::written;
use crate::numbers;
use crate::value::Value;

verus! {

/// The word in which a server tells what became of a registration.
pub open spec fn register_word(o: RegisterWorkerOutcome) -> &'static str {
    match o {
        RegisterWorkerOutcome::Registered => "registered",
        RegisterWorkerOutcome::Refreshed => "refreshed",
    }
}

/// What became of a registration is read back from its word.
pub proof fn law_register_word_reads_back(raw: &Value, status: Seq<char>, o: RegisterWorkerOutcome, r: Result<RegisterWorkerOutcome, ScriptError>)
    requires
        call_ensures(RegisterWorkerOutcome::from_fcall_result, (raw,), r),
        written(*raw, status, seq![register_word(o)@]),
    ensures
        r == Ok::<RegisterWorkerOutcome, ScriptError>(o),
{
    let f = written::lemma_written(*raw, status, seq![register_word(o)@]);
    reveal_strlit("registered");
    reveal_strlit("refreshed");
    assert("registered"@.len() == 10);
    assert("refreshed"@.len() == 9);
}

/// A word of no outcome cannot be read.
pub proof fn law_register_other_words(raw: &Value, status: Seq<char>, word: Seq<char>, r: Result<RegisterWorkerOutcome, ScriptError>)
    requires
        call_ensures(RegisterWorkerOutcome::from_fcall_result, (raw,), r),
        written(*raw, status, seq![word]),
        forall|o: RegisterWorkerOutcome| word != #[trigger] register_word(o)@,
    ensures
        r is Err,
{
    let f = written::lemma_written(*raw, status, seq![word]);
    assert(word != register_word(RegisterWorkerOutcome::Registered)@);
    assert(word != register_word(RegisterWorkerOutcome::Refreshed)@);
}

/// A refused registration is the error whose code was written.
pub proof fn law_register_refusal(raw: &Value, e: ScriptError<Seq<char>>, r: Result<RegisterWorkerOutcome, ScriptError>)
    requires
        call_ensures(RegisterWorkerOutcome::from_fcall_result, (raw,), r),
        refused(*raw, e),
    ensures
        r matches Err(x) && x@ == error_laws::emptied(e),
{
    let f = written::lemma_refused(*raw, e);
}

/// A heartbeat of a registered worker is read with the life that was written.
pub proof fn law_heartbeat_refreshed(raw: &Value, status: Seq<char>, ttl: u64, r: Result<HeartbeatWorkerReply, ScriptError>)
    requires
        call_ensures(HeartbeatWorkerReply::from_fcall_result, (raw,), r),
        written(*raw, status, seq!["refreshed"@, numbers::decimal(ttl as int)]),
    ensures
        r matches Ok(x) && x.outcome_tag == (HeartbeatReplyTag::Refreshed { ttl_ms: ttl }),
{
    let f = written::lemma_written(*raw, status, seq!["refreshed"@, numbers::decimal(ttl as int)]);
    numbers::law_u64_round_trip(ttl);
    reveal_strlit("refreshed");
    reveal_strlit("not_registered");
    assert("refreshed"@.len() == 9);
    assert("not_registered"@.len() == 14);
}

/// A heartbeat of a worker that is not registered says so.
pub proof fn law_heartbeat_lost(raw: &Value, status: Seq<char>, r: Result<HeartbeatWorkerReply, ScriptError>)
    requires
        call_ensures(HeartbeatWorkerReply::from_fcall_result, (raw,), r),
        written(*raw, status, seq!["not_registered"@]),
    ensures
        r matches Ok(x) && x.outcome_tag == HeartbeatReplyTag::NotRegistered,
{
    let f = written::lemma_written(*raw, status, seq!["not_registered"@]);
    reveal_strlit("refreshed");
    reveal_strlit("not_registered");
    assert("refreshed"@.len() == 9);
    assert("not_registered"@.len() == 14);
}

/// A word that is neither cannot be read.
pub proof fn law_heartbeat_other_words(raw: &Value, status: Seq<char>, word: Seq<char>, r: Result<HeartbeatWorkerReply, ScriptError>)
    requires
        call_ensures(HeartbeatWorkerReply::from_fcall_result, (raw,), r),
        written(*raw, status, seq![word]),
        word != "refreshed"@,
        word != "not_registered"@,
    ensures
        r is Err,
{
    let f = written::lemma_written(*raw, status, seq![word]);
}

/// A refused heartbeat is the error whose code was written.
pub proof fn law_heartbeat_refusal(raw: &Value, e: ScriptError<Seq<char>>, r: Result<HeartbeatWorkerReply, ScriptError>)
    requires
        call_ensures(HeartbeatWorkerReply::from_fcall_result, (raw,), r),
        refused(*raw, e),
    ensures
        r matches Err(x) && x@ == error_laws::emptied(e),
{
    let f = written::lemma_refused(*raw, e);
}

} // verus!
