//! What a server writes is what is read: replies to calls on flows.

use vstd::prelude::*;
use vstd::string::*;

use crate::error::ScriptError;
use crate::error_laws;
use crate::fields::FromFcallResult;
use crate::functions::execution::PublicState;
use crate::functions::flow::{AddExecutionToFlowResult, ApplyDependencyToChildResult, CancelFlowResult, CreateFlowResult, EvaluateFlowEligibilityResult, PromoteBlockedToEligibleResult, ReplayExecutionResult, ResolveDependencyResult, SetEdgeGroupPolicyResult, SetFlowTagsResult, StageDependencyEdgeResult};
use crate::functions::flow;
use crate::ids;
use crate::laws::written::{refused, written};
use crate::laws::written;
use crate::numbers;
use crate::result::FcallView;
use crate::text;
use crate::value::Value;

verus! {

/// A flow that was made is told from one that was there.
pub proof fn law_create_flow_created(raw: &Value, id: Seq<char>, r: Result<CreateFlowResult, ScriptError>)
    requires
        call_ensures(CreateFlowResult::from_fcall_result, (raw,), r),
        written(*raw, "OK"@, seq![id]),
        ids::canonical_uuid(id),
    ensures
        r matches Ok(CreateFlowResult::Created { flow_id }) && flow_id@ == id,
{
    let f = written::lemma_written(*raw, "OK"@, seq![id]);
    reveal_strlit("OK");
    reveal_strlit("ALREADY_SATISFIED");
    assert("OK"@.len() == 2);
    assert("ALREADY_SATISFIED"@.len() == 17);
}

/// A flow that was there is told from one that was made.
pub proof fn law_create_flow_already(raw: &Value, id: Seq<char>, r: Result<CreateFlowResult, ScriptError>)
    requires
        call_ensures(CreateFlowResult::from_fcall_result, (raw,), r),
        written(*raw, "ALREADY_SATISFIED"@, seq![id]),
        ids::canonical_uuid(id),
    ensures
        r matches Ok(CreateFlowResult::AlreadySatisfied { flow_id }) && flow_id@ == id,
{
    let f = written::lemma_written(*raw, "ALREADY_SATISFIED"@, seq![id]);
    reveal_strlit("OK");
    reveal_strlit("ALREADY_SATISFIED");
    assert("OK"@.len() == 2);
    assert("ALREADY_SATISFIED"@.len() == 17);
}

/// No other status says that it is there.
pub proof fn law_create_flow_other_status(raw: &Value, status: Seq<char>, id: Seq<char>, r: Result<CreateFlowResult, ScriptError>)
    requires
        call_ensures(CreateFlowResult::from_fcall_result, (raw,), r),
        written(*raw, status, seq![id]),
        status != "OK"@,
        status != "ALREADY_SATISFIED"@,
    ensures
        r is Err,
{
    let f = written::lemma_written(*raw, status, seq![id]);
}

/// A refused creation of a flow is the error whose code was written.
pub proof fn law_create_flow_refusal(raw: &Value, e: ScriptError<Seq<char>>, r: Result<CreateFlowResult, ScriptError>)
    requires
        call_ensures(CreateFlowResult::from_fcall_result, (raw,), r),
        refused(*raw, e),
    ensures
        r matches Err(x) && x@ == error_laws::emptied(e),
{
    let f = written::lemma_refused(*raw, e);
}

/// A promotion that was accepted has happened.
pub proof fn law_promote_accepted(raw: &Value, status: Seq<char>, fields: Seq<Seq<char>>, r: Result<PromoteBlockedToEligibleResult, ScriptError>)
    requires
        call_ensures(PromoteBlockedToEligibleResult::from_fcall_result, (raw,), r),
        written(*raw, status, fields),
    ensures
        r matches Ok(PromoteBlockedToEligibleResult::Promoted),
{
    let f = written::lemma_written(*raw, status, fields);
}

/// A promotion that was refused is the error whose code was written.
pub proof fn law_promote_refusal(raw: &Value, e: ScriptError<Seq<char>>, r: Result<PromoteBlockedToEligibleResult, ScriptError>)
    requires
        call_ensures(PromoteBlockedToEligibleResult::from_fcall_result, (raw,), r),
        refused(*raw, e),
    ensures
        r matches Err(x) && x@ == error_laws::emptied(e),
{
    let f = written::lemma_refused(*raw, e);
}

/// The number of tags is read as it was written.
pub proof fn law_flow_tags_read_back(raw: &Value, status: Seq<char>, n: u32, r: Result<SetFlowTagsResult, ScriptError>)
    requires
        call_ensures(SetFlowTagsResult::from_fcall_result, (raw,), r),
        written(*raw, status, seq![numbers::decimal(n as int)]),
    ensures
        r matches Ok(x) && x.count == n,
{
    let f = written::lemma_written(*raw, status, seq![numbers::decimal(n as int)]);
    numbers::law_u32_round_trip(n);
}

/// Refused tags are the error whose code was written.
pub proof fn law_flow_tags_refusal(raw: &Value, e: ScriptError<Seq<char>>, r: Result<SetFlowTagsResult, ScriptError>)
    requires
        call_ensures(SetFlowTagsResult::from_fcall_result, (raw,), r),
        refused(*raw, e),
    ensures
        r matches Err(x) && x@ == error_laws::emptied(e),
{
    let f = written::lemma_refused(*raw, e);
}

/// A new member is read with the size of the flow.
pub proof fn law_add_reads_back(raw: &Value, id: Seq<char>, n: u32, r: Result<AddExecutionToFlowResult, ScriptError>)
    requires
        call_ensures(AddExecutionToFlowResult::from_fcall_result, (raw,), r),
        written(*raw, "OK"@, seq![id, numbers::decimal(n as int)]),
        ids::plain_execution_id(id),
    ensures
        r matches Ok(AddExecutionToFlowResult::Added { execution_id, new_node_count }) && execution_id@ == id && new_node_count == n,
{
    let f = written::lemma_written(*raw, "OK"@, seq![id, numbers::decimal(n as int)]);
    numbers::law_u32_round_trip(n);
    reveal_strlit("OK");
    reveal_strlit("ALREADY_SATISFIED");
    assert("OK"@.len() == 2);
    assert("ALREADY_SATISFIED"@.len() == 17);
}

/// A member that was there is told from a new one.
pub proof fn law_add_repeated(raw: &Value, id: Seq<char>, n: u32, r: Result<AddExecutionToFlowResult, ScriptError>)
    requires
        call_ensures(AddExecutionToFlowResult::from_fcall_result, (raw,), r),
        written(*raw, "ALREADY_SATISFIED"@, seq![id, numbers::decimal(n as int)]),
        ids::plain_execution_id(id),
    ensures
        r matches Ok(AddExecutionToFlowResult::AlreadyMember { execution_id, node_count }) && execution_id@ == id && node_count == n,
{
    let f = written::lemma_written(*raw, "ALREADY_SATISFIED"@, seq![id, numbers::decimal(n as int)]);
    numbers::law_u32_round_trip(n);
    reveal_strlit("OK");
    reveal_strlit("ALREADY_SATISFIED");
    assert("OK"@.len() == 2);
    assert("ALREADY_SATISFIED"@.len() == 17);
}

/// No other status says that it is a member.
pub proof fn law_add_other_status(raw: &Value, status: Seq<char>, id: Seq<char>, r: Result<AddExecutionToFlowResult, ScriptError>)
    requires
        call_ensures(AddExecutionToFlowResult::from_fcall_result, (raw,), r),
        written(*raw, status, seq![id]),
        status != "OK"@,
        status != "ALREADY_SATISFIED"@,
    ensures
        r is Err,
{
    let f = written::lemma_written(*raw, status, seq![id]);
}

/// A refused addition is the error whose code was written.
pub proof fn law_add_refusal(raw: &Value, e: ScriptError<Seq<char>>, r: Result<AddExecutionToFlowResult, ScriptError>)
    requires
        call_ensures(AddExecutionToFlowResult::from_fcall_result, (raw,), r),
        refused(*raw, e),
    ensures
        r matches Err(x) && x@ == error_laws::emptied(e),
{
    let f = written::lemma_refused(*raw, e);
}

/// The word in which a server tells what became of an edge.
pub open spec fn resolve_word(o: ResolveDependencyResult) -> &'static str {
    match o {
        ResolveDependencyResult::Satisfied => "satisfied",
        ResolveDependencyResult::Impossible => "impossible",
        ResolveDependencyResult::AlreadyResolved => "already_resolved",
    }
}

/// What became of an edge is read back from its word.
pub proof fn law_resolve_word_reads_back(raw: &Value, status: Seq<char>, o: ResolveDependencyResult, r: Result<ResolveDependencyResult, ScriptError>)
    requires
        call_ensures(ResolveDependencyResult::from_fcall_result, (raw,), r),
        written(*raw, status, seq![resolve_word(o)@]),
    ensures
        r == Ok::<ResolveDependencyResult, ScriptError>(o),
{
    let f = written::lemma_written(*raw, status, seq![resolve_word(o)@]);
    reveal_strlit("satisfied");
    reveal_strlit("impossible");
    reveal_strlit("already_resolved");
    assert("satisfied"@.len() == 9);
    assert("impossible"@.len() == 10);
    assert("already_resolved"@.len() == 16);
}

/// A word of no outcome cannot be read.
pub proof fn law_resolve_other_words(raw: &Value, status: Seq<char>, word: Seq<char>, r: Result<ResolveDependencyResult, ScriptError>)
    requires
        call_ensures(ResolveDependencyResult::from_fcall_result, (raw,), r),
        written(*raw, status, seq![word]),
        forall|o: ResolveDependencyResult| word != #[trigger] resolve_word(o)@,
    ensures
        r is Err,
{
    let f = written::lemma_written(*raw, status, seq![word]);
    assert(word != resolve_word(ResolveDependencyResult::Satisfied)@);
    assert(word != resolve_word(ResolveDependencyResult::Impossible)@);
    assert(word != resolve_word(ResolveDependencyResult::AlreadyResolved)@);
}

/// A refused resolution is the error whose code was written.
pub proof fn law_resolve_refusal(raw: &Value, e: ScriptError<Seq<char>>, r: Result<ResolveDependencyResult, ScriptError>)
    requires
        call_ensures(ResolveDependencyResult::from_fcall_result, (raw,), r),
        refused(*raw, e),
    ensures
        r matches Err(x) && x@ == error_laws::emptied(e),
{
    let f = written::lemma_refused(*raw, e);
}

/// The word in which a server tells what became of a policy.
pub open spec fn edge_policy_word(o: SetEdgeGroupPolicyResult) -> &'static str {
    match o {
        SetEdgeGroupPolicyResult::NewlySet => "set",
        SetEdgeGroupPolicyResult::AlreadySet => "already_set",
    }
}

/// What became of a policy is read back from its word.
pub proof fn law_edge_policy_word_reads_back(raw: &Value, status: Seq<char>, o: SetEdgeGroupPolicyResult, r: Result<SetEdgeGroupPolicyResult, ScriptError>)
    requires
        call_ensures(SetEdgeGroupPolicyResult::from_fcall_result, (raw,), r),
        written(*raw, status, seq![edge_policy_word(o)@]),
    ensures
        r == Ok::<SetEdgeGroupPolicyResult, ScriptError>(o),
{
    let f = written::lemma_written(*raw, status, seq![edge_policy_word(o)@]);
    reveal_strlit("set");
    reveal_strlit("already_set");
    assert("set"@.len() == 3);
    assert("already_set"@.len() == 11);
}

/// A word of no outcome cannot be read.
pub proof fn law_edge_policy_other_words(raw: &Value, status: Seq<char>, word: Seq<char>, r: Result<SetEdgeGroupPolicyResult, ScriptError>)
    requires
        call_ensures(SetEdgeGroupPolicyResult::from_fcall_result, (raw,), r),
        written(*raw, status, seq![word]),
        forall|o: SetEdgeGroupPolicyResult| word != #[trigger] edge_policy_word(o)@,
    ensures
        r is Err,
{
    let f = written::lemma_written(*raw, status, seq![word]);
    assert(word != edge_policy_word(SetEdgeGroupPolicyResult::NewlySet)@);
    assert(word != edge_policy_word(SetEdgeGroupPolicyResult::AlreadySet)@);
}

/// A refused policy is the error whose code was written.
pub proof fn law_edge_policy_refusal(raw: &Value, e: ScriptError<Seq<char>>, r: Result<SetEdgeGroupPolicyResult, ScriptError>)
    requires
        call_ensures(SetEdgeGroupPolicyResult::from_fcall_result, (raw,), r),
        refused(*raw, e),
    ensures
        r matches Err(x) && x@ == error_laws::emptied(e),
{
    let f = written::lemma_refused(*raw, e);
}

/// The number of unmet dependencies is read as it was written.
pub proof fn law_apply_reads_back(raw: &Value, status: Seq<char>, n: u32, r: Result<ApplyDependencyToChildResult, ScriptError>)
    requires
        call_ensures(ApplyDependencyToChildResult::from_fcall_result, (raw,), r),
        written(*raw, status, seq![numbers::decimal(n as int)]),
    ensures
        r == Ok::<ApplyDependencyToChildResult, ScriptError>(ApplyDependencyToChildResult::Applied { unsatisfied_count: n }),
{
    let f = written::lemma_written(*raw, status, seq![numbers::decimal(n as int)]);
    numbers::law_u32_round_trip(n);
    reveal_strlit("already_applied");
    assert("already_applied"@.len() == 15);
    if numbers::decimal(n as int) == "already_applied"@ {
        assert(numbers::parse_u32_spec("already_applied"@) is Ok);
        assert("already_applied"@[0] == 'a');
        lemma_letter_is_no_number("already_applied"@);
    }
}

/// An edge that was applied before is told from one that is now.
pub proof fn law_apply_repeated(raw: &Value, status: Seq<char>, r: Result<ApplyDependencyToChildResult, ScriptError>)
    requires
        call_ensures(ApplyDependencyToChildResult::from_fcall_result, (raw,), r),
        written(*raw, status, seq!["already_applied"@]),
    ensures
        r == Ok::<ApplyDependencyToChildResult, ScriptError>(ApplyDependencyToChildResult::AlreadyApplied),
{
    let f = written::lemma_written(*raw, status, seq!["already_applied"@]);
}

/// A refused application is the error whose code was written.
pub proof fn law_apply_refusal(raw: &Value, e: ScriptError<Seq<char>>, r: Result<ApplyDependencyToChildResult, ScriptError>)
    requires
        call_ensures(ApplyDependencyToChildResult::from_fcall_result, (raw,), r),
        refused(*raw, e),
    ensures
        r matches Err(x) && x@ == error_laws::emptied(e),
{
    let f = written::lemma_refused(*raw, e);
}

/// No number begins with a letter.
proof fn lemma_letter_is_no_number(s: Seq<char>)
    requires
        s.len() > 0,
        'a' <= s[0] <= 'z',
    ensures
        numbers::parse_u32_spec(s) is Err,
{
    reveal_with_fuel(numbers::read_digits, 2);
}

/// A replayed execution waits for its children exactly where dependencies are unmet.
pub proof fn law_replay_reads_back(raw: &Value, status: Seq<char>, n: u32, r: Result<ReplayExecutionResult, ScriptError>)
    requires
        call_ensures(ReplayExecutionResult::from_fcall_result, (raw,), r),
        written(*raw, status, seq![numbers::decimal(n as int)]),
    ensures
        n == 0 ==> r == Ok::<ReplayExecutionResult, ScriptError>(ReplayExecutionResult::Replayed { public_state: PublicState::Waiting }),
        n > 0 ==> r == Ok::<ReplayExecutionResult, ScriptError>(ReplayExecutionResult::Replayed { public_state: PublicState::WaitingChildren }),
{
    let f = written::lemma_written(*raw, status, seq![numbers::decimal(n as int)]);
    numbers::law_u32_round_trip(n);
    reveal_strlit("0");
    numbers::law_u32_round_trip(0);
    assert(numbers::decimal(0) =~= "0"@);
}

/// A refused replay is the error whose code was written.
pub proof fn law_replay_refusal(raw: &Value, e: ScriptError<Seq<char>>, r: Result<ReplayExecutionResult, ScriptError>)
    requires
        call_ensures(ReplayExecutionResult::from_fcall_result, (raw,), r),
        refused(*raw, e),
    ensures
        r matches Err(x) && x@ == error_laws::emptied(e),
{
    let f = written::lemma_refused(*raw, e);
}

/// A staged edge is read with its identity and the revision that were written.
pub proof fn law_stage_reads_back(raw: &Value, status: Seq<char>, id: Seq<char>, n: u64, r: Result<StageDependencyEdgeResult, ScriptError>)
    requires
        call_ensures(StageDependencyEdgeResult::from_fcall_result, (raw,), r),
        written(*raw, status, seq![id, numbers::decimal(n as int)]),
        ids::canonical_uuid(id),
    ensures
        r matches Ok(StageDependencyEdgeResult::Staged { edge_id, new_graph_revision }) && edge_id@ == id && new_graph_revision == n,
{
    let f = written::lemma_written(*raw, status, seq![id, numbers::decimal(n as int)]);
    numbers::law_u64_round_trip(n);
}

/// A refused edge is the error whose code was written.
pub proof fn law_stage_refusal(raw: &Value, e: ScriptError<Seq<char>>, r: Result<StageDependencyEdgeResult, ScriptError>)
    requires
        call_ensures(StageDependencyEdgeResult::from_fcall_result, (raw,), r),
        refused(*raw, e),
    ensures
        r matches Err(x) && x@ == error_laws::emptied(e),
{
    let f = written::lemma_refused(*raw, e);
}

/// The word of the server is handed on.
pub proof fn law_eligibility_reads_back(raw: &Value, status: Seq<char>, word: Seq<char>, r: Result<EvaluateFlowEligibilityResult, ScriptError>)
    requires
        call_ensures(EvaluateFlowEligibilityResult::from_fcall_result, (raw,), r),
        written(*raw, status, seq![word]),
    ensures
        r matches Ok(x) && x.status@ == word,
{
    let f = written::lemma_written(*raw, status, seq![word]);
}

/// A refused question is the error whose code was written.
pub proof fn law_eligibility_refusal(raw: &Value, e: ScriptError<Seq<char>>, r: Result<EvaluateFlowEligibilityResult, ScriptError>)
    requires
        call_ensures(EvaluateFlowEligibilityResult::from_fcall_result, (raw,), r),
        refused(*raw, e),
    ensures
        r matches Err(x) && x@ == error_laws::emptied(e),
{
    let f = written::lemma_refused(*raw, e);
}

/// A cancelled flow is read with its policy and with every member that was written, in
/// order.
pub proof fn law_cancel_flow_reads_back(raw: &Value, status: Seq<char>, policy: Seq<char>, members: Seq<Seq<char>>, r: Result<CancelFlowResult, ScriptError>)
    requires
        call_ensures(CancelFlowResult::from_fcall_result, (raw,), r),
        written(*raw, status, seq![policy] + members),
        forall|i: int| 0 <= i < members.len() ==> (#[trigger] members[i]).len() > 0,
    ensures
        r matches Ok(c) && c.cancellation_policy@ == policy && text::texts(
            c.member_execution_ids@,
        ) == members,
{
    let all = seq![policy] + members;
    let f = written::lemma_written(*raw, status, all);
    assert(f.field(0) == all[0]);
    lemma_leading(f, members, 0);
    assert(members.skip(0) =~= members);
}

proof fn lemma_leading(f: FcallView, members: Seq<Seq<char>>, i: int)
    requires
        0 <= i <= members.len(),
        f.fields.len() == members.len() + 1,
        forall|k: int| 0 <= k < members.len() + 1 ==> #[trigger] f.field(k) == (seq![Seq::<char>::empty()] + members)[k] || k == 0,
        forall|k: int| 0 <= k < members.len() ==> (#[trigger] members[k]).len() > 0,
    ensures
        flow::leading_fields(f, i + 1) == members.skip(i),
    decreases members.len() - i,
{
    if i < members.len() {
        lemma_leading(f, members, i + 1);
        assert(f.field(i + 1) == members[i]);
        assert(members.skip(i) =~= seq![members[i]] + members.skip(i + 1));
    } else {
        assert(members.skip(i) =~= Seq::empty());
    }
}

/// A refused cancellation is the error whose code was written.
pub proof fn law_cancel_flow_refusal(raw: &Value, e: ScriptError<Seq<char>>, r: Result<CancelFlowResult, ScriptError>)
    requires
        call_ensures(CancelFlowResult::from_fcall_result, (raw,), r),
        refused(*raw, e),
    ensures
        r matches Err(x) && x@ == error_laws::emptied(e),
{
    let f = written::lemma_refused(*raw, e);
}

} // verus!
