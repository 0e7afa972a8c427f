//! Reading the fields of an accepted reply.

use vstd::prelude::*;
use vstd::string::*;

use crate::error;
use crate::error::{ScriptError, ScriptErrorView};
use crate::ids;
use crate::ids::{
    AttemptId, BudgetId, EdgeId, ExecutionId, FlowId, LeaseId, QuotaPolicyId, SignalId, SuspensionId,
    WaitpointId,
};
use crate::numbers;
use crate::result::{FcallResult, FcallView};
use crate::value::Value;

verus! {

/// Types that the reply of a server function denotes.
pub trait FromFcallResult: Sized {
    /// Read a reply.
    fn from_fcall_result(raw: &Value) -> Result<Self, ScriptError>;
}

/// `r` is what `want` says: the same value, or the same error.
pub open spec fn agrees<T: View>(
    r: Result<T, ScriptError>,
    want: Result<T::V, ScriptErrorView>,
) -> bool {
    match r {
        Ok(x) => want == Ok::<T::V, ScriptErrorView>(x@),
        Err(e) => want == Err::<T::V, ScriptErrorView>(e@),
    }
}

/// A reply of `fcall` with a field that cannot be read.
pub open spec fn bad_field(fcall: Seq<char>, label: Seq<char>, why: Seq<char>) -> ScriptErrorView {
    error::parse_error(fcall, label + why)
}

fn field_error(fcall: &str, label: &str, why: &str) -> (r: ScriptError)
    ensures
        r@ == bad_field(fcall@, label@, why@),
{
    error::unreadable(fcall, error::prefixed(label, why))
}


/// Field `i` as a `u64`.
pub open spec fn u64_spec(f: FcallView, i: int, fcall: Seq<char>, label: Seq<char>) -> Result<
    u64,
    ScriptErrorView,
> {
    match numbers::parse_u64_spec(f.field(i)) {
        Ok(n) => Ok(n),
        Err(e) => Err(bad_field(fcall, label, e.text_spec())),
    }
}

/// Field `i` as a `u64`.
pub fn u64_field(f: &FcallResult, i: usize, fcall: &str, label: &str) -> (r: Result<
    u64,
    ScriptError,
>)
    ensures
        agrees(r, u64_spec(f@, i as int, fcall@, label@)),
{
    match numbers::parse_u64(f.field_str(i).as_str()) {
        Ok(n) => Ok(n),
        Err(e) => Err(field_error(fcall, label, e.text())),
    }
}


/// Field `i` as a `u32`.
pub open spec fn u32_spec(f: FcallView, i: int, fcall: Seq<char>, label: Seq<char>) -> Result<
    u32,
    ScriptErrorView,
> {
    match numbers::parse_u32_spec(f.field(i)) {
        Ok(n) => Ok(n),
        Err(e) => Err(bad_field(fcall, label, e.text_spec())),
    }
}

/// Field `i` as a `u32`.
pub fn u32_field(f: &FcallResult, i: usize, fcall: &str, label: &str) -> (r: Result<
    u32,
    ScriptError,
>)
    ensures
        agrees(r, u32_spec(f@, i as int, fcall@, label@)),
{
    match numbers::parse_u32(f.field_str(i).as_str()) {
        Ok(n) => Ok(n),
        Err(e) => Err(field_error(fcall, label, e.text())),
    }
}


/// Field `i` as a `i64`.
pub open spec fn i64_spec(f: FcallView, i: int, fcall: Seq<char>, label: Seq<char>) -> Result<
    i64,
    ScriptErrorView,
> {
    match numbers::parse_i64_spec(f.field(i)) {
        Ok(n) => Ok(n),
        Err(e) => Err(bad_field(fcall, label, e.text_spec())),
    }
}

/// Field `i` as a `i64`.
pub fn i64_field(f: &FcallResult, i: usize, fcall: &str, label: &str) -> (r: Result<
    i64,
    ScriptError,
>)
    ensures
        agrees(r, i64_spec(f@, i as int, fcall@, label@)),
{
    match numbers::parse_i64(f.field_str(i).as_str()) {
        Ok(n) => Ok(n),
        Err(e) => Err(field_error(fcall, label, e.text())),
    }
}


/// Field `i` as a `ExecutionId`.
pub open spec fn execution_id_spec(f: FcallView, i: int, fcall: Seq<char>, label: Seq<char>) -> Result<
    Seq<char>,
    ScriptErrorView,
> {
    match ids::execution_id_of(f.field(i)) {
        Ok(id) => Ok(id),
        Err(e) => Err(bad_field(fcall, label, e)),
    }
}

/// Field `i` as a `ExecutionId`.
pub fn execution_id_field(f: &FcallResult, i: usize, fcall: &str, label: &str) -> (r: Result<
    ExecutionId,
    ScriptError,
>)
    ensures
        agrees(r, execution_id_spec(f@, i as int, fcall@, label@)),
{
    match ExecutionId::parse(f.field_str(i).as_str()) {
        Ok(id) => Ok(id),
        Err(e) => Err(field_error(fcall, label, e.as_str())),
    }
}


/// Field `i` as a `FlowId`.
pub open spec fn flow_id_spec(f: FcallView, i: int, fcall: Seq<char>, label: Seq<char>) -> Result<
    Seq<char>,
    ScriptErrorView,
> {
    match ids::flow_id_of(f.field(i)) {
        Ok(id) => Ok(id),
        Err(e) => Err(bad_field(fcall, label, e)),
    }
}

/// Field `i` as a `FlowId`.
pub fn flow_id_field(f: &FcallResult, i: usize, fcall: &str, label: &str) -> (r: Result<
    FlowId,
    ScriptError,
>)
    ensures
        agrees(r, flow_id_spec(f@, i as int, fcall@, label@)),
{
    match FlowId::parse(f.field_str(i).as_str()) {
        Ok(id) => Ok(id),
        Err(e) => Err(field_error(fcall, label, e.as_str())),
    }
}


/// Field `i` as a `BudgetId`.
pub open spec fn budget_id_spec(f: FcallView, i: int, fcall: Seq<char>, label: Seq<char>) -> Result<
    Seq<char>,
    ScriptErrorView,
> {
    match ids::budget_id_of(f.field(i)) {
        Ok(id) => Ok(id),
        Err(e) => Err(bad_field(fcall, label, e)),
    }
}

/// Field `i` as a `BudgetId`.
pub fn budget_id_field(f: &FcallResult, i: usize, fcall: &str, label: &str) -> (r: Result<
    BudgetId,
    ScriptError,
>)
    ensures
        agrees(r, budget_id_spec(f@, i as int, fcall@, label@)),
{
    match BudgetId::parse(f.field_str(i).as_str()) {
        Ok(id) => Ok(id),
        Err(e) => Err(field_error(fcall, label, e.as_str())),
    }
}


/// Field `i` as a `QuotaPolicyId`.
pub open spec fn quota_policy_id_spec(f: FcallView, i: int, fcall: Seq<char>, label: Seq<char>) -> Result<
    Seq<char>,
    ScriptErrorView,
> {
    match ids::quota_policy_id_of(f.field(i)) {
        Ok(id) => Ok(id),
        Err(e) => Err(bad_field(fcall, label, e)),
    }
}

/// Field `i` as a `QuotaPolicyId`.
pub fn quota_policy_id_field(f: &FcallResult, i: usize, fcall: &str, label: &str) -> (r: Result<
    QuotaPolicyId,
    ScriptError,
>)
    ensures
        agrees(r, quota_policy_id_spec(f@, i as int, fcall@, label@)),
{
    match QuotaPolicyId::parse(f.field_str(i).as_str()) {
        Ok(id) => Ok(id),
        Err(e) => Err(field_error(fcall, label, e.as_str())),
    }
}


/// Field `i` as a `LeaseId`.
pub open spec fn lease_id_spec(f: FcallView, i: int, fcall: Seq<char>, label: Seq<char>) -> Result<
    Seq<char>,
    ScriptErrorView,
> {
    match ids::lease_id_of(f.field(i)) {
        Ok(id) => Ok(id),
        Err(e) => Err(bad_field(fcall, label, e)),
    }
}

/// Field `i` as a `LeaseId`.
pub fn lease_id_field(f: &FcallResult, i: usize, fcall: &str, label: &str) -> (r: Result<
    LeaseId,
    ScriptError,
>)
    ensures
        agrees(r, lease_id_spec(f@, i as int, fcall@, label@)),
{
    match LeaseId::parse(f.field_str(i).as_str()) {
        Ok(id) => Ok(id),
        Err(e) => Err(field_error(fcall, label, e.as_str())),
    }
}


/// Field `i` as a `AttemptId`.
pub open spec fn attempt_id_spec(f: FcallView, i: int, fcall: Seq<char>, label: Seq<char>) -> Result<
    Seq<char>,
    ScriptErrorView,
> {
    match ids::attempt_id_of(f.field(i)) {
        Ok(id) => Ok(id),
        Err(e) => Err(bad_field(fcall, label, e)),
    }
}

/// Field `i` as a `AttemptId`.
pub fn attempt_id_field(f: &FcallResult, i: usize, fcall: &str, label: &str) -> (r: Result<
    AttemptId,
    ScriptError,
>)
    ensures
        agrees(r, attempt_id_spec(f@, i as int, fcall@, label@)),
{
    match AttemptId::parse(f.field_str(i).as_str()) {
        Ok(id) => Ok(id),
        Err(e) => Err(field_error(fcall, label, e.as_str())),
    }
}


/// Field `i` as a `SignalId`.
pub open spec fn signal_id_spec(f: FcallView, i: int, fcall: Seq<char>, label: Seq<char>) -> Result<
    Seq<char>,
    ScriptErrorView,
> {
    match ids::signal_id_of(f.field(i)) {
        Ok(id) => Ok(id),
        Err(e) => Err(bad_field(fcall, label, e)),
    }
}

/// Field `i` as a `SignalId`.
pub fn signal_id_field(f: &FcallResult, i: usize, fcall: &str, label: &str) -> (r: Result<
    SignalId,
    ScriptError,
>)
    ensures
        agrees(r, signal_id_spec(f@, i as int, fcall@, label@)),
{
    match SignalId::parse(f.field_str(i).as_str()) {
        Ok(id) => Ok(id),
        Err(e) => Err(field_error(fcall, label, e.as_str())),
    }
}


/// Field `i` as a `WaitpointId`.
pub open spec fn waitpoint_id_spec(f: FcallView, i: int, fcall: Seq<char>, label: Seq<char>) -> Result<
    Seq<char>,
    ScriptErrorView,
> {
    match ids::waitpoint_id_of(f.field(i)) {
        Ok(id) => Ok(id),
        Err(e) => Err(bad_field(fcall, label, e)),
    }
}

/// Field `i` as a `WaitpointId`.
pub fn waitpoint_id_field(f: &FcallResult, i: usize, fcall: &str, label: &str) -> (r: Result<
    WaitpointId,
    ScriptError,
>)
    ensures
        agrees(r, waitpoint_id_spec(f@, i as int, fcall@, label@)),
{
    match WaitpointId::parse(f.field_str(i).as_str()) {
        Ok(id) => Ok(id),
        Err(e) => Err(field_error(fcall, label, e.as_str())),
    }
}


/// Field `i` as a `SuspensionId`.
pub open spec fn suspension_id_spec(f: FcallView, i: int, fcall: Seq<char>, label: Seq<char>) -> Result<
    Seq<char>,
    ScriptErrorView,
> {
    match ids::suspension_id_of(f.field(i)) {
        Ok(id) => Ok(id),
        Err(e) => Err(bad_field(fcall, label, e)),
    }
}

/// Field `i` as a `SuspensionId`.
pub fn suspension_id_field(f: &FcallResult, i: usize, fcall: &str, label: &str) -> (r: Result<
    SuspensionId,
    ScriptError,
>)
    ensures
        agrees(r, suspension_id_spec(f@, i as int, fcall@, label@)),
{
    match SuspensionId::parse(f.field_str(i).as_str()) {
        Ok(id) => Ok(id),
        Err(e) => Err(field_error(fcall, label, e.as_str())),
    }
}


/// Field `i` as a `EdgeId`.
pub open spec fn edge_id_spec(f: FcallView, i: int, fcall: Seq<char>, label: Seq<char>) -> Result<
    Seq<char>,
    ScriptErrorView,
> {
    match ids::edge_id_of(f.field(i)) {
        Ok(id) => Ok(id),
        Err(e) => Err(bad_field(fcall, label, e)),
    }
}

/// Field `i` as a `EdgeId`.
pub fn edge_id_field(f: &FcallResult, i: usize, fcall: &str, label: &str) -> (r: Result<
    EdgeId,
    ScriptError,
>)
    ensures
        agrees(r, edge_id_spec(f@, i as int, fcall@, label@)),
{
    match EdgeId::parse(f.field_str(i).as_str()) {
        Ok(id) => Ok(id),
        Err(e) => Err(field_error(fcall, label, e.as_str())),
    }
}


/// Field `i` as a `u32`, zero when it is none.
pub open spec fn u32_or_zero_spec(f: FcallView, i: int) -> u32 {
    match numbers::parse_u32_spec(f.field(i)) {
        Ok(n) => n,
        Err(_) => 0,
    }
}

/// Field `i` as a `u32`, zero when it is none.
pub fn u32_or_zero(f: &FcallResult, i: usize) -> (r: u32)
    ensures
        r == u32_or_zero_spec(f@, i as int),
{
    match numbers::parse_u32(f.field_str(i).as_str()) {
        Ok(n) => n,
        Err(_) => 0,
    }
}

/// Field `i` as a `u64`, zero when it is none.
pub open spec fn u64_or_zero_spec(f: FcallView, i: int) -> u64 {
    match numbers::parse_u64_spec(f.field(i)) {
        Ok(n) => n,
        Err(_) => 0,
    }
}

/// Field `i` as a `u64`, zero when it is none.
pub fn u64_or_zero(f: &FcallResult, i: usize) -> (r: u64)
    ensures
        r == u64_or_zero_spec(f@, i as int),
{
    match numbers::parse_u64(f.field_str(i).as_str()) {
        Ok(n) => n,
        Err(_) => 0,
    }
}

/// Field `i` as an `i64`, zero when it is none.
pub open spec fn i64_or_zero_spec(f: FcallView, i: int) -> i64 {
    match numbers::parse_i64_spec(f.field(i)) {
        Ok(n) => n,
        Err(_) => 0,
    }
}

/// Field `i` as an `i64`, zero when it is none.
pub fn i64_or_zero(f: &FcallResult, i: usize) -> (r: i64)
    ensures
        r == i64_or_zero_spec(f@, i as int),
{
    match numbers::parse_i64(f.field_str(i).as_str()) {
        Ok(n) => n,
        Err(_) => 0,
    }
}

/// A reply with a status word that the function does not use.
pub open spec fn bad_status(fcall: Seq<char>, status: Seq<char>) -> ScriptErrorView {
    error::parse_error(fcall, "unexpected status: "@ + status)
}

/// A reply with a status word that the function does not use.
pub fn unexpected_status(fcall: &str, status: &str) -> (r: ScriptError)
    ensures
        r@ == bad_status(fcall@, status@),
{
    error::unreadable(fcall, error::prefixed("unexpected status: ", status))
}

} // verus!
