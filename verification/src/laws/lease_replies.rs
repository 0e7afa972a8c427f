//! What a server writes is what is read: replies to calls on leases.

use vstd::prelude::*;
use vstd::string::*;

use crate::error::ScriptError;
use crate::error_laws;
use crate::fields::FromFcallResult;
use crate::functions::lease::{MarkLeaseExpiredResult, RenewLeaseResult, RevokeLeaseResult};
use crate::laws::written::{refused, written};
use crate::laws::written;
use crate::numbers;
use crate::value::Value;

verus! {

/// A lease that was marked is told from one that was not due.
pub proof fn law_mark_reads_back(raw: &Value, r: Result<MarkLeaseExpiredResult, ScriptError>)
    requires
        call_ensures(MarkLeaseExpiredResult::from_fcall_result, (raw,), r),
        written(*raw, "OK"@, Seq::<Seq<char>>::empty()),
    ensures
        r matches Ok(MarkLeaseExpiredResult::MarkedExpired),
{
    let f = written::lemma_written(*raw, "OK"@, Seq::<Seq<char>>::empty());
    reveal_strlit("OK");
    reveal_strlit("ALREADY_SATISFIED");
    assert("OK"@.len() == 2);
    assert("ALREADY_SATISFIED"@.len() == 17);
}

/// A lease that was not due is told from one that was marked.
pub proof fn law_mark_repeated(raw: &Value, why: Seq<char>, r: Result<MarkLeaseExpiredResult, ScriptError>)
    requires
        call_ensures(MarkLeaseExpiredResult::from_fcall_result, (raw,), r),
        written(*raw, "ALREADY_SATISFIED"@, seq![why]),
    ensures
        r matches Ok(MarkLeaseExpiredResult::AlreadySatisfied { reason }) && reason@ == why,
{
    let f = written::lemma_written(*raw, "ALREADY_SATISFIED"@, seq![why]);
    reveal_strlit("OK");
    reveal_strlit("ALREADY_SATISFIED");
    assert("OK"@.len() == 2);
    assert("ALREADY_SATISFIED"@.len() == 17);
}

/// No other status tells.
pub proof fn law_mark_other_status(raw: &Value, status: Seq<char>, r: Result<MarkLeaseExpiredResult, ScriptError>)
    requires
        call_ensures(MarkLeaseExpiredResult::from_fcall_result, (raw,), r),
        written(*raw, status, Seq::<Seq<char>>::empty()),
        status != "OK"@,
        status != "ALREADY_SATISFIED"@,
    ensures
        r is Err,
{
    let f = written::lemma_written(*raw, status, Seq::<Seq<char>>::empty());
}

/// A refused check is the error whose code was written.
pub proof fn law_mark_refusal(raw: &Value, e: ScriptError<Seq<char>>, r: Result<MarkLeaseExpiredResult, ScriptError>)
    requires
        call_ensures(MarkLeaseExpiredResult::from_fcall_result, (raw,), r),
        refused(*raw, e),
    ensures
        r matches Err(x) && x@ == error_laws::emptied(e),
{
    let f = written::lemma_refused(*raw, e);
}

/// A revoked lease is read with its identity and its epoch.
pub proof fn law_revoke_reads_back(raw: &Value, first: Seq<char>, id: Seq<char>, epoch: Seq<char>, r: Result<RevokeLeaseResult, ScriptError>)
    requires
        call_ensures(RevokeLeaseResult::from_fcall_result, (raw,), r),
        written(*raw, "OK"@, seq![first, id, epoch]),
    ensures
        r matches Ok(RevokeLeaseResult::Revoked { lease_id, lease_epoch }) && lease_id@ == id && lease_epoch@ == epoch,
{
    let f = written::lemma_written(*raw, "OK"@, seq![first, id, epoch]);
    reveal_strlit("OK");
    reveal_strlit("ALREADY_SATISFIED");
    assert("OK"@.len() == 2);
    assert("ALREADY_SATISFIED"@.len() == 17);
}

/// A lease that was gone is told from one that was revoked.
pub proof fn law_revoke_repeated(raw: &Value, why: Seq<char>, r: Result<RevokeLeaseResult, ScriptError>)
    requires
        call_ensures(RevokeLeaseResult::from_fcall_result, (raw,), r),
        written(*raw, "ALREADY_SATISFIED"@, seq![why]),
    ensures
        r matches Ok(RevokeLeaseResult::AlreadySatisfied { reason }) && reason@ == why,
{
    let f = written::lemma_written(*raw, "ALREADY_SATISFIED"@, seq![why]);
    reveal_strlit("OK");
    reveal_strlit("ALREADY_SATISFIED");
    assert("OK"@.len() == 2);
    assert("ALREADY_SATISFIED"@.len() == 17);
}

/// No other status tells.
pub proof fn law_revoke_other_status(raw: &Value, status: Seq<char>, r: Result<RevokeLeaseResult, ScriptError>)
    requires
        call_ensures(RevokeLeaseResult::from_fcall_result, (raw,), r),
        written(*raw, status, Seq::<Seq<char>>::empty()),
        status != "OK"@,
        status != "ALREADY_SATISFIED"@,
    ensures
        r is Err,
{
    let f = written::lemma_written(*raw, status, Seq::<Seq<char>>::empty());
}

/// A refused revocation is the error whose code was written.
pub proof fn law_revoke_refusal(raw: &Value, e: ScriptError<Seq<char>>, r: Result<RevokeLeaseResult, ScriptError>)
    requires
        call_ensures(RevokeLeaseResult::from_fcall_result, (raw,), r),
        refused(*raw, e),
    ensures
        r matches Err(x) && x@ == error_laws::emptied(e),
{
    let f = written::lemma_refused(*raw, e);
}

/// A renewed lease is read with the expiry that was written.
pub proof fn law_renew_reads_back(raw: &Value, status: Seq<char>, t: i64, r: Result<RenewLeaseResult, ScriptError>)
    requires
        call_ensures(RenewLeaseResult::from_fcall_result, (raw,), r),
        written(*raw, status, seq![numbers::decimal(t as int)]),
    ensures
        r matches Ok(RenewLeaseResult::Renewed { expires_at }) && expires_at.0 == t,
{
    let f = written::lemma_written(*raw, status, seq![numbers::decimal(t as int)]);
    numbers::law_i64_round_trip(t);
}

/// A refused renewal is the error whose code was written.
pub proof fn law_renew_refusal(raw: &Value, e: ScriptError<Seq<char>>, r: Result<RenewLeaseResult, ScriptError>)
    requires
        call_ensures(RenewLeaseResult::from_fcall_result, (raw,), r),
        refused(*raw, e),
    ensures
        r matches Err(x) && x@ == error_laws::emptied(e),
{
    let f = written::lemma_refused(*raw, e);
}

} // verus!
