//! Identities.
//!
//! An identity is held in its canonical text. A valid one is what its parser
//! makes of that text.

use vstd::prelude::*;
use vstd::string::*;

use crate::numbers;

verus! {

/// What a parser made of a text: the canonical text, or why it is none.
pub type Parsed = Result<Seq<char>, Seq<char>>;

/// The texts of a parser's result.
pub open spec fn parsed(r: Result<String, String>) -> Parsed {
    match r {
        Ok(t) => Ok(t@),
        Err(e) => Err(e@),
    }
}

/// A digit or a letter from `a` to `f`.
pub open spec fn lower_hex(c: char) -> bool {
    ('0' <= c && c <= '9') || ('a' <= c && c <= 'f')
}

/// The plain form of a UUID: 32 lower-case hexadecimal digits in groups of 8, 4, 4, 4
/// and 12, with hyphens between them.
pub open spec fn canonical_uuid(s: Seq<char>) -> bool {
    s.len() == 36 && forall|i: int|
        0 <= i < 36 ==> if i == 8 || i == 13 || i == 18 || i == 23 {
            #[trigger] s[i] == '-'
        } else {
            lower_hex(s[i])
        }
}

// ── Executions ──

/// The plain form of an execution identity: the hash tag of a partition, and the
/// plain form of a UUID.
pub open spec fn plain_execution_id(s: Seq<char>) -> bool {
    exists|digits: Seq<char>, rest: Seq<char>|
        s == #[trigger] tag_text(digits, rest) && numbers::parse_u16_spec(digits) is Ok
            && canonical_uuid(rest)
}

/// What `ff_core::types::ExecutionId::parse` makes of a text that is not in plain form.
pub uninterp spec fn other_execution_id(s: Seq<char>) -> Parsed;

/// The execution identity of a text, or why it has none.
pub open spec fn execution_id_of(s: Seq<char>) -> Parsed {
    if plain_execution_id(s) {
        Parsed::Ok(s)
    } else {
        other_execution_id(s)
    }
}

/// `ff_core::types::ExecutionId::parse`, and the rendering of its result. The plain form
/// is accepted, and an accepted text is kept as it is. What becomes of other forms is
/// named `other_execution_id`.
#[verifier::external_body]
fn parse_execution_id(s: &str) -> (r: Result<String, String>)
    ensures
        r matches Ok(t) ==> t@ == s@,
        plain_execution_id(s@) ==> r is Ok,
        !plain_execution_id(s@) ==> parsed(r) == other_execution_id(s@),
{
    match ff_core::types::ExecutionId::parse(s) {
        Ok(id) => Ok(id.to_string()),
        Err(e) => Err(e.to_string()),
    }
}

/// The text of an execution identity: `{fp:<digits>}:<rest>`.
pub open spec fn tag_text(digits: Seq<char>, rest: Seq<char>) -> Seq<char> {
    "{fp:"@ + digits + "}:"@ + rest
}

/// Whether `index` is the partition in the hash tag of an execution's text.
pub open spec fn tagged(s: Seq<char>, index: u16) -> bool {
    exists|digits: Seq<char>, rest: Seq<char>|
        s == #[trigger] tag_text(digits, rest) && numbers::parse_u16_spec(digits) == Ok::<
            u16,
            numbers::IntError,
        >(index)
}

/// `ff_core::types::ExecutionId::partition` of the execution with this text: the
/// index in the text's hash tag.
#[verifier::external_body]
fn read_partition(s: &str) -> (r: u16)
    requires
        execution_id_of(s@) is Ok,
    ensures
        tagged(s@, r),
{
    match ff_core::types::ExecutionId::parse(s) {
        Ok(id) => id.partition(),
        Err(_) => 0,
    }
}

proof fn lemma_digits_only(s: Seq<char>, acc: nat, max: nat, over: numbers::IntError)
    requires
        numbers::read_digits(s, acc, max, over) is Ok,
    ensures
        forall|i: int| 0 <= i < s.len() ==> numbers::is_digit(#[trigger] s[i]),
    decreases s.len(),
{
    if s.len() > 0 {
        lemma_digits_only(s.skip(1), acc * 10 + numbers::digit_value(s[0]), max, over);
        assert forall|i: int| 0 <= i < s.len() implies numbers::is_digit(#[trigger] s[i]) by {
            if i > 0 {
                assert(s.skip(1)[i - 1] == s[i]);
            }
        }
    }
}

proof fn lemma_no_brace(digits: Seq<char>)
    requires
        numbers::parse_u16_spec(digits) is Ok,
    ensures
        forall|i: int| 0 <= i < digits.len() ==> #[trigger] digits[i] != '}',
{
    if digits[0] == '+' {
        lemma_digits_only(digits.skip(1), 0, u16::MAX as nat, numbers::IntError::PosOverflow);
        assert forall|i: int| 0 <= i < digits.len() implies #[trigger] digits[i] != '}' by {
            if i > 0 {
                assert(digits.skip(1)[i - 1] == digits[i]);
            }
        }
    } else {
        lemma_digits_only(digits, 0, u16::MAX as nat, numbers::IntError::PosOverflow);
    }
}

/// A text has at most one partition in its hash tag.
pub proof fn law_partition_unique(s: Seq<char>, a: u16, b: u16)
    requires
        tagged(s, a),
        tagged(s, b),
    ensures
        a == b,
{
    let (d1, r1) = choose|digits: Seq<char>, rest: Seq<char>|
        s == #[trigger] tag_text(digits, rest) && numbers::parse_u16_spec(digits) == Ok::<
            u16,
            numbers::IntError,
        >(a);
    let (d2, r2) = choose|digits: Seq<char>, rest: Seq<char>|
        s == #[trigger] tag_text(digits, rest) && numbers::parse_u16_spec(digits) == Ok::<
            u16,
            numbers::IntError,
        >(b);
    reveal_strlit("{fp:");
    reveal_strlit("}:");
    lemma_no_brace(d1);
    lemma_no_brace(d2);
    assert("{fp:"@.len() == 4);
    assert("}:"@[0] == '}');
    assert(s[4 + d1.len() as int] == '}');
    assert(s[4 + d2.len() as int] == '}');
    if d1.len() < d2.len() {
        assert(s[4 + d1.len() as int] == d2[d1.len() as int]);
    } else if d2.len() < d1.len() {
        assert(s[4 + d2.len() as int] == d1[d2.len() as int]);
    } else {
        assert(d1 =~= s.subrange(4, 4 + d1.len() as int));
        assert(d2 =~= s.subrange(4, 4 + d2.len() as int));
    }
}

/// Identity of an execution: `{fp:<partition>}:<uuid>`.
#[derive(Debug, PartialEq, Eq, Hash)]
pub struct ExecutionId {
    text: String,
}

impl View for ExecutionId {
    type V = Seq<char>;

    closed spec fn view(&self) -> Seq<char> {
        self.text@
    }
}

impl ExecutionId {
    /// The text is one that the parser accepts.
    #[verifier::type_invariant]
    pub closed spec fn valid(self) -> bool {
        execution_id_of(self.text@) == Parsed::Ok(self.text@)
    }

    /// Parse a text. The error says why it is no execution identity.
    pub fn parse(s: &str) -> (r: Result<ExecutionId, String>)
        ensures
            match r {
                Ok(id) => execution_id_of(s@) == Parsed::Ok(id@) && id@ == s@,
                Err(e) => execution_id_of(s@) == Parsed::Err(e@),
            },
    {
        match parse_execution_id(s) {
            Ok(text) => Ok(ExecutionId { text }),
            Err(e) => Err(e),
        }
    }

    /// The text, in plain form, which parses to this identity.
    pub fn as_str(&self) -> (r: &str)
        ensures
            r@ == self@,
            execution_id_of(r@) == Parsed::Ok(self@),
    {
        proof {
            use_type_invariant(self);
        }
        self.text.as_str()
    }

    /// The same identity.
    pub fn copy(&self) -> (r: ExecutionId)
        ensures
            r@ == self@,
    {
        proof {
            use_type_invariant(self);
        }
        let text = self.text.clone();
        ExecutionId { text }
    }

    /// The partition that the identity is bound to.
    pub fn partition(&self) -> (r: u16)
        ensures
            tagged(self@, r),
    {
        proof {
            use_type_invariant(self);
        }
        read_partition(self.text.as_str())
    }
}



// ── FlowId ──

/// What `ff_core::types::FlowId::parse` makes of a text that is not in plain form.
pub uninterp spec fn other_flow_id(s: Seq<char>) -> Parsed;

/// The identity of a text, in plain form, or why it has none.
pub open spec fn flow_id_of(s: Seq<char>) -> Parsed {
    if canonical_uuid(s) {
        Parsed::Ok(s)
    } else {
        other_flow_id(s)
    }
}

/// `ff_core::types::FlowId::parse`, and the rendering of its result, which is in plain
/// form. A text in plain form is accepted and kept as it is. What becomes of other
/// forms is named `other_flow_id`.
#[verifier::external_body]
fn parse_flow_id(s: &str) -> (r: Result<String, String>)
    ensures
        r matches Ok(t) ==> canonical_uuid(t@),
        canonical_uuid(s@) ==> parsed(r) == Parsed::Ok(s@),
        !canonical_uuid(s@) ==> parsed(r) == other_flow_id(s@),
{
    match ff_core::types::FlowId::parse(s) {
        Ok(id) => Ok(id.to_string()),
        Err(e) => Err(e.to_string()),
    }
}

/// Identity of a flow.
#[derive(Debug, PartialEq, Eq, Hash)]
pub struct FlowId {
    text: String,
}

impl View for FlowId {
    type V = Seq<char>;

    closed spec fn view(&self) -> Seq<char> {
        self.text@
    }
}

impl FlowId {
    /// The text is in plain form.
    #[verifier::type_invariant]
    pub closed spec fn valid(self) -> bool {
        canonical_uuid(self.text@)
    }

    /// Parse a text. The error says why it is no identity.
    pub fn parse(s: &str) -> (r: Result<FlowId, String>)
        ensures
            match r {
                Ok(id) => flow_id_of(s@) == Parsed::Ok(id@),
                Err(e) => flow_id_of(s@) == Parsed::Err(e@),
            },
    {
        match parse_flow_id(s) {
            Ok(text) => Ok(FlowId { text }),
            Err(e) => Err(e),
        }
    }

    /// The text, in plain form, which parses to this identity.
    pub fn as_str(&self) -> (r: &str)
        ensures
            r@ == self@,
            canonical_uuid(r@),
    {
        proof {
            use_type_invariant(self);
        }
        self.text.as_str()
    }

    /// The same identity.
    pub fn copy(&self) -> (r: FlowId)
        ensures
            r@ == self@,
    {
        proof {
            use_type_invariant(self);
        }
        let text = self.text.clone();
        FlowId { text }
    }
}

// ── BudgetId ──

/// What `ff_core::types::BudgetId::parse` makes of a text that is not in plain form.
pub uninterp spec fn other_budget_id(s: Seq<char>) -> Parsed;

/// The identity of a text, in plain form, or why it has none.
pub open spec fn budget_id_of(s: Seq<char>) -> Parsed {
    if canonical_uuid(s) {
        Parsed::Ok(s)
    } else {
        other_budget_id(s)
    }
}

/// `ff_core::types::BudgetId::parse`, and the rendering of its result, which is in plain
/// form. A text in plain form is accepted and kept as it is. What becomes of other
/// forms is named `other_budget_id`.
#[verifier::external_body]
fn parse_budget_id(s: &str) -> (r: Result<String, String>)
    ensures
        r matches Ok(t) ==> canonical_uuid(t@),
        canonical_uuid(s@) ==> parsed(r) == Parsed::Ok(s@),
        !canonical_uuid(s@) ==> parsed(r) == other_budget_id(s@),
{
    match ff_core::types::BudgetId::parse(s) {
        Ok(id) => Ok(id.to_string()),
        Err(e) => Err(e.to_string()),
    }
}

/// Identity of a budget.
#[derive(Debug, PartialEq, Eq, Hash)]
pub struct BudgetId {
    text: String,
}

impl View for BudgetId {
    type V = Seq<char>;

    closed spec fn view(&self) -> Seq<char> {
        self.text@
    }
}

impl BudgetId {
    /// The text is in plain form.
    #[verifier::type_invariant]
    pub closed spec fn valid(self) -> bool {
        canonical_uuid(self.text@)
    }

    /// Parse a text. The error says why it is no identity.
    pub fn parse(s: &str) -> (r: Result<BudgetId, String>)
        ensures
            match r {
                Ok(id) => budget_id_of(s@) == Parsed::Ok(id@),
                Err(e) => budget_id_of(s@) == Parsed::Err(e@),
            },
    {
        match parse_budget_id(s) {
            Ok(text) => Ok(BudgetId { text }),
            Err(e) => Err(e),
        }
    }

    /// The text, in plain form, which parses to this identity.
    pub fn as_str(&self) -> (r: &str)
        ensures
            r@ == self@,
            canonical_uuid(r@),
    {
        proof {
            use_type_invariant(self);
        }
        self.text.as_str()
    }

    /// The same identity.
    pub fn copy(&self) -> (r: BudgetId)
        ensures
            r@ == self@,
    {
        proof {
            use_type_invariant(self);
        }
        let text = self.text.clone();
        BudgetId { text }
    }
}

// ── QuotaPolicyId ──

/// What `ff_core::types::QuotaPolicyId::parse` makes of a text that is not in plain form.
pub uninterp spec fn other_quota_policy_id(s: Seq<char>) -> Parsed;

/// The identity of a text, in plain form, or why it has none.
pub open spec fn quota_policy_id_of(s: Seq<char>) -> Parsed {
    if canonical_uuid(s) {
        Parsed::Ok(s)
    } else {
        other_quota_policy_id(s)
    }
}

/// `ff_core::types::QuotaPolicyId::parse`, and the rendering of its result, which is in plain
/// form. A text in plain form is accepted and kept as it is. What becomes of other
/// forms is named `other_quota_policy_id`.
#[verifier::external_body]
fn parse_quota_policy_id(s: &str) -> (r: Result<String, String>)
    ensures
        r matches Ok(t) ==> canonical_uuid(t@),
        canonical_uuid(s@) ==> parsed(r) == Parsed::Ok(s@),
        !canonical_uuid(s@) ==> parsed(r) == other_quota_policy_id(s@),
{
    match ff_core::types::QuotaPolicyId::parse(s) {
        Ok(id) => Ok(id.to_string()),
        Err(e) => Err(e.to_string()),
    }
}

/// Identity of a quota policy.
#[derive(Debug, PartialEq, Eq, Hash)]
pub struct QuotaPolicyId {
    text: String,
}

impl View for QuotaPolicyId {
    type V = Seq<char>;

    closed spec fn view(&self) -> Seq<char> {
        self.text@
    }
}

impl QuotaPolicyId {
    /// The text is in plain form.
    #[verifier::type_invariant]
    pub closed spec fn valid(self) -> bool {
        canonical_uuid(self.text@)
    }

    /// Parse a text. The error says why it is no identity.
    pub fn parse(s: &str) -> (r: Result<QuotaPolicyId, String>)
        ensures
            match r {
                Ok(id) => quota_policy_id_of(s@) == Parsed::Ok(id@),
                Err(e) => quota_policy_id_of(s@) == Parsed::Err(e@),
            },
    {
        match parse_quota_policy_id(s) {
            Ok(text) => Ok(QuotaPolicyId { text }),
            Err(e) => Err(e),
        }
    }

    /// The text, in plain form, which parses to this identity.
    pub fn as_str(&self) -> (r: &str)
        ensures
            r@ == self@,
            canonical_uuid(r@),
    {
        proof {
            use_type_invariant(self);
        }
        self.text.as_str()
    }

    /// The same identity.
    pub fn copy(&self) -> (r: QuotaPolicyId)
        ensures
            r@ == self@,
    {
        proof {
            use_type_invariant(self);
        }
        let text = self.text.clone();
        QuotaPolicyId { text }
    }
}

// ── LeaseId ──

/// What `ff_core::types::LeaseId::parse` makes of a text that is not in plain form.
pub uninterp spec fn other_lease_id(s: Seq<char>) -> Parsed;

/// The identity of a text, in plain form, or why it has none.
pub open spec fn lease_id_of(s: Seq<char>) -> Parsed {
    if canonical_uuid(s) {
        Parsed::Ok(s)
    } else {
        other_lease_id(s)
    }
}

/// `ff_core::types::LeaseId::parse`, and the rendering of its result, which is in plain
/// form. A text in plain form is accepted and kept as it is. What becomes of other
/// forms is named `other_lease_id`.
#[verifier::external_body]
fn parse_lease_id(s: &str) -> (r: Result<String, String>)
    ensures
        r matches Ok(t) ==> canonical_uuid(t@),
        canonical_uuid(s@) ==> parsed(r) == Parsed::Ok(s@),
        !canonical_uuid(s@) ==> parsed(r) == other_lease_id(s@),
{
    match ff_core::types::LeaseId::parse(s) {
        Ok(id) => Ok(id.to_string()),
        Err(e) => Err(e.to_string()),
    }
}

/// Identity of a lease.
#[derive(Debug, PartialEq, Eq, Hash)]
pub struct LeaseId {
    text: String,
}

impl View for LeaseId {
    type V = Seq<char>;

    closed spec fn view(&self) -> Seq<char> {
        self.text@
    }
}

impl LeaseId {
    /// The text is in plain form.
    #[verifier::type_invariant]
    pub closed spec fn valid(self) -> bool {
        canonical_uuid(self.text@)
    }

    /// Parse a text. The error says why it is no identity.
    pub fn parse(s: &str) -> (r: Result<LeaseId, String>)
        ensures
            match r {
                Ok(id) => lease_id_of(s@) == Parsed::Ok(id@),
                Err(e) => lease_id_of(s@) == Parsed::Err(e@),
            },
    {
        match parse_lease_id(s) {
            Ok(text) => Ok(LeaseId { text }),
            Err(e) => Err(e),
        }
    }

    /// The text, in plain form, which parses to this identity.
    pub fn as_str(&self) -> (r: &str)
        ensures
            r@ == self@,
            canonical_uuid(r@),
    {
        proof {
            use_type_invariant(self);
        }
        self.text.as_str()
    }

    /// The same identity.
    pub fn copy(&self) -> (r: LeaseId)
        ensures
            r@ == self@,
    {
        proof {
            use_type_invariant(self);
        }
        let text = self.text.clone();
        LeaseId { text }
    }
}

// ── AttemptId ──

/// What `ff_core::types::AttemptId::parse` makes of a text that is not in plain form.
pub uninterp spec fn other_attempt_id(s: Seq<char>) -> Parsed;

/// The identity of a text, in plain form, or why it has none.
pub open spec fn attempt_id_of(s: Seq<char>) -> Parsed {
    if canonical_uuid(s) {
        Parsed::Ok(s)
    } else {
        other_attempt_id(s)
    }
}

/// `ff_core::types::AttemptId::parse`, and the rendering of its result, which is in plain
/// form. A text in plain form is accepted and kept as it is. What becomes of other
/// forms is named `other_attempt_id`.
#[verifier::external_body]
fn parse_attempt_id(s: &str) -> (r: Result<String, String>)
    ensures
        r matches Ok(t) ==> canonical_uuid(t@),
        canonical_uuid(s@) ==> parsed(r) == Parsed::Ok(s@),
        !canonical_uuid(s@) ==> parsed(r) == other_attempt_id(s@),
{
    match ff_core::types::AttemptId::parse(s) {
        Ok(id) => Ok(id.to_string()),
        Err(e) => Err(e.to_string()),
    }
}

/// Identity of an attempt.
#[derive(Debug, PartialEq, Eq, Hash)]
pub struct AttemptId {
    text: String,
}

impl View for AttemptId {
    type V = Seq<char>;

    closed spec fn view(&self) -> Seq<char> {
        self.text@
    }
}

impl AttemptId {
    /// The text is in plain form.
    #[verifier::type_invariant]
    pub closed spec fn valid(self) -> bool {
        canonical_uuid(self.text@)
    }

    /// Parse a text. The error says why it is no identity.
    pub fn parse(s: &str) -> (r: Result<AttemptId, String>)
        ensures
            match r {
                Ok(id) => attempt_id_of(s@) == Parsed::Ok(id@),
                Err(e) => attempt_id_of(s@) == Parsed::Err(e@),
            },
    {
        match parse_attempt_id(s) {
            Ok(text) => Ok(AttemptId { text }),
            Err(e) => Err(e),
        }
    }

    /// The text, in plain form, which parses to this identity.
    pub fn as_str(&self) -> (r: &str)
        ensures
            r@ == self@,
            canonical_uuid(r@),
    {
        proof {
            use_type_invariant(self);
        }
        self.text.as_str()
    }

    /// The same identity.
    pub fn copy(&self) -> (r: AttemptId)
        ensures
            r@ == self@,
    {
        proof {
            use_type_invariant(self);
        }
        let text = self.text.clone();
        AttemptId { text }
    }
}

// ── SignalId ──

/// What `ff_core::types::SignalId::parse` makes of a text that is not in plain form.
pub uninterp spec fn other_signal_id(s: Seq<char>) -> Parsed;

/// The identity of a text, in plain form, or why it has none.
pub open spec fn signal_id_of(s: Seq<char>) -> Parsed {
    if canonical_uuid(s) {
        Parsed::Ok(s)
    } else {
        other_signal_id(s)
    }
}

/// `ff_core::types::SignalId::parse`, and the rendering of its result, which is in plain
/// form. A text in plain form is accepted and kept as it is. What becomes of other
/// forms is named `other_signal_id`.
#[verifier::external_body]
fn parse_signal_id(s: &str) -> (r: Result<String, String>)
    ensures
        r matches Ok(t) ==> canonical_uuid(t@),
        canonical_uuid(s@) ==> parsed(r) == Parsed::Ok(s@),
        !canonical_uuid(s@) ==> parsed(r) == other_signal_id(s@),
{
    match ff_core::types::SignalId::parse(s) {
        Ok(id) => Ok(id.to_string()),
        Err(e) => Err(e.to_string()),
    }
}

/// Identity of a signal.
#[derive(Debug, PartialEq, Eq, Hash)]
pub struct SignalId {
    text: String,
}

impl View for SignalId {
    type V = Seq<char>;

    closed spec fn view(&self) -> Seq<char> {
        self.text@
    }
}

impl SignalId {
    /// The text is in plain form.
    #[verifier::type_invariant]
    pub closed spec fn valid(self) -> bool {
        canonical_uuid(self.text@)
    }

    /// Parse a text. The error says why it is no identity.
    pub fn parse(s: &str) -> (r: Result<SignalId, String>)
        ensures
            match r {
                Ok(id) => signal_id_of(s@) == Parsed::Ok(id@),
                Err(e) => signal_id_of(s@) == Parsed::Err(e@),
            },
    {
        match parse_signal_id(s) {
            Ok(text) => Ok(SignalId { text }),
            Err(e) => Err(e),
        }
    }

    /// The text, in plain form, which parses to this identity.
    pub fn as_str(&self) -> (r: &str)
        ensures
            r@ == self@,
            canonical_uuid(r@),
    {
        proof {
            use_type_invariant(self);
        }
        self.text.as_str()
    }

    /// The same identity.
    pub fn copy(&self) -> (r: SignalId)
        ensures
            r@ == self@,
    {
        proof {
            use_type_invariant(self);
        }
        let text = self.text.clone();
        SignalId { text }
    }
}

// ── WaitpointId ──

/// What `ff_core::types::WaitpointId::parse` makes of a text that is not in plain form.
pub uninterp spec fn other_waitpoint_id(s: Seq<char>) -> Parsed;

/// The identity of a text, in plain form, or why it has none.
pub open spec fn waitpoint_id_of(s: Seq<char>) -> Parsed {
    if canonical_uuid(s) {
        Parsed::Ok(s)
    } else {
        other_waitpoint_id(s)
    }
}

/// `ff_core::types::WaitpointId::parse`, and the rendering of its result, which is in plain
/// form. A text in plain form is accepted and kept as it is. What becomes of other
/// forms is named `other_waitpoint_id`.
#[verifier::external_body]
fn parse_waitpoint_id(s: &str) -> (r: Result<String, String>)
    ensures
        r matches Ok(t) ==> canonical_uuid(t@),
        canonical_uuid(s@) ==> parsed(r) == Parsed::Ok(s@),
        !canonical_uuid(s@) ==> parsed(r) == other_waitpoint_id(s@),
{
    match ff_core::types::WaitpointId::parse(s) {
        Ok(id) => Ok(id.to_string()),
        Err(e) => Err(e.to_string()),
    }
}

/// Identity of a waitpoint.
#[derive(Debug, PartialEq, Eq, Hash)]
pub struct WaitpointId {
    text: String,
}

impl View for WaitpointId {
    type V = Seq<char>;

    closed spec fn view(&self) -> Seq<char> {
        self.text@
    }
}

impl WaitpointId {
    /// The text is in plain form.
    #[verifier::type_invariant]
    pub closed spec fn valid(self) -> bool {
        canonical_uuid(self.text@)
    }

    /// Parse a text. The error says why it is no identity.
    pub fn parse(s: &str) -> (r: Result<WaitpointId, String>)
        ensures
            match r {
                Ok(id) => waitpoint_id_of(s@) == Parsed::Ok(id@),
                Err(e) => waitpoint_id_of(s@) == Parsed::Err(e@),
            },
    {
        match parse_waitpoint_id(s) {
            Ok(text) => Ok(WaitpointId { text }),
            Err(e) => Err(e),
        }
    }

    /// The text, in plain form, which parses to this identity.
    pub fn as_str(&self) -> (r: &str)
        ensures
            r@ == self@,
            canonical_uuid(r@),
    {
        proof {
            use_type_invariant(self);
        }
        self.text.as_str()
    }

    /// The same identity.
    pub fn copy(&self) -> (r: WaitpointId)
        ensures
            r@ == self@,
    {
        proof {
            use_type_invariant(self);
        }
        let text = self.text.clone();
        WaitpointId { text }
    }
}

// ── SuspensionId ──

/// What `ff_core::types::SuspensionId::parse` makes of a text that is not in plain form.
pub uninterp spec fn other_suspension_id(s: Seq<char>) -> Parsed;

/// The identity of a text, in plain form, or why it has none.
pub open spec fn suspension_id_of(s: Seq<char>) -> Parsed {
    if canonical_uuid(s) {
        Parsed::Ok(s)
    } else {
        other_suspension_id(s)
    }
}

/// `ff_core::types::SuspensionId::parse`, and the rendering of its result, which is in plain
/// form. A text in plain form is accepted and kept as it is. What becomes of other
/// forms is named `other_suspension_id`.
#[verifier::external_body]
fn parse_suspension_id(s: &str) -> (r: Result<String, String>)
    ensures
        r matches Ok(t) ==> canonical_uuid(t@),
        canonical_uuid(s@) ==> parsed(r) == Parsed::Ok(s@),
        !canonical_uuid(s@) ==> parsed(r) == other_suspension_id(s@),
{
    match ff_core::types::SuspensionId::parse(s) {
        Ok(id) => Ok(id.to_string()),
        Err(e) => Err(e.to_string()),
    }
}

/// Identity of a suspension.
#[derive(Debug, PartialEq, Eq, Hash)]
pub struct SuspensionId {
    text: String,
}

impl View for SuspensionId {
    type V = Seq<char>;

    closed spec fn view(&self) -> Seq<char> {
        self.text@
    }
}

impl SuspensionId {
    /// The text is in plain form.
    #[verifier::type_invariant]
    pub closed spec fn valid(self) -> bool {
        canonical_uuid(self.text@)
    }

    /// Parse a text. The error says why it is no identity.
    pub fn parse(s: &str) -> (r: Result<SuspensionId, String>)
        ensures
            match r {
                Ok(id) => suspension_id_of(s@) == Parsed::Ok(id@),
                Err(e) => suspension_id_of(s@) == Parsed::Err(e@),
            },
    {
        match parse_suspension_id(s) {
            Ok(text) => Ok(SuspensionId { text }),
            Err(e) => Err(e),
        }
    }

    /// The text, in plain form, which parses to this identity.
    pub fn as_str(&self) -> (r: &str)
        ensures
            r@ == self@,
            canonical_uuid(r@),
    {
        proof {
            use_type_invariant(self);
        }
        self.text.as_str()
    }

    /// The same identity.
    pub fn copy(&self) -> (r: SuspensionId)
        ensures
            r@ == self@,
    {
        proof {
            use_type_invariant(self);
        }
        let text = self.text.clone();
        SuspensionId { text }
    }
}

// ── EdgeId ──

/// What `ff_core::types::EdgeId::parse` makes of a text that is not in plain form.
pub uninterp spec fn other_edge_id(s: Seq<char>) -> Parsed;

/// The identity of a text, in plain form, or why it has none.
pub open spec fn edge_id_of(s: Seq<char>) -> Parsed {
    if canonical_uuid(s) {
        Parsed::Ok(s)
    } else {
        other_edge_id(s)
    }
}

/// `ff_core::types::EdgeId::parse`, and the rendering of its result, which is in plain
/// form. A text in plain form is accepted and kept as it is. What becomes of other
/// forms is named `other_edge_id`.
#[verifier::external_body]
fn parse_edge_id(s: &str) -> (r: Result<String, String>)
    ensures
        r matches Ok(t) ==> canonical_uuid(t@),
        canonical_uuid(s@) ==> parsed(r) == Parsed::Ok(s@),
        !canonical_uuid(s@) ==> parsed(r) == other_edge_id(s@),
{
    match ff_core::types::EdgeId::parse(s) {
        Ok(id) => Ok(id.to_string()),
        Err(e) => Err(e.to_string()),
    }
}

/// Identity of a dependency edge.
#[derive(Debug, PartialEq, Eq, Hash)]
pub struct EdgeId {
    text: String,
}

impl View for EdgeId {
    type V = Seq<char>;

    closed spec fn view(&self) -> Seq<char> {
        self.text@
    }
}

impl EdgeId {
    /// The text is in plain form.
    #[verifier::type_invariant]
    pub closed spec fn valid(self) -> bool {
        canonical_uuid(self.text@)
    }

    /// Parse a text. The error says why it is no identity.
    pub fn parse(s: &str) -> (r: Result<EdgeId, String>)
        ensures
            match r {
                Ok(id) => edge_id_of(s@) == Parsed::Ok(id@),
                Err(e) => edge_id_of(s@) == Parsed::Err(e@),
            },
    {
        match parse_edge_id(s) {
            Ok(text) => Ok(EdgeId { text }),
            Err(e) => Err(e),
        }
    }

    /// The text, in plain form, which parses to this identity.
    pub fn as_str(&self) -> (r: &str)
        ensures
            r@ == self@,
            canonical_uuid(r@),
    {
        proof {
            use_type_invariant(self);
        }
        self.text.as_str()
    }

    /// The same identity.
    pub fn copy(&self) -> (r: EdgeId)
        ensures
            r@ == self@,
    {
        proof {
            use_type_invariant(self);
        }
        let text = self.text.clone();
        EdgeId { text }
    }
}

// ── Counters and times ──

/// Fencing token of a lease. Grows with each lease.
#[derive(Clone, Copy, Debug, PartialEq, Eq, Structural)]
pub struct LeaseEpoch(pub u64);

/// Number of an attempt within its execution, from zero.
#[derive(Clone, Copy, Debug, PartialEq, Eq, Structural)]
pub struct AttemptIndex(pub u32);

/// A time in Unix milliseconds.
#[derive(Clone, Copy, Debug, PartialEq, Eq, Structural)]
pub struct TimestampMs(pub i64);

} // verus!
