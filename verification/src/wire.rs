//! How arguments of server functions are written.

use vstd::prelude::*;
use vstd::string::*;

use crate::field_map;
use crate::field_map::FieldMap;
use crate::ids::{AttemptId, LeaseEpoch, LeaseId, TimestampMs};
use crate::numbers;
use crate::text;

verus! {

/// A call of a server function: its name, keys and arguments.
#[derive(Debug)]
pub struct Call {
    pub function: &'static str,
    pub keys: Vec<String>,
    pub argv: Vec<String>,
}

impl Call {
    /// The texts of the keys.
    pub open spec fn keys_spec(self) -> Seq<Seq<char>> {
        text::texts(self.keys@)
    }

    /// The texts of the arguments.
    pub open spec fn argv_spec(self) -> Seq<Seq<char>> {
        text::texts(self.argv@)
    }
}

/// What a caller must match to act for the current lease.
#[derive(Debug)]
pub struct LeaseFence {
    pub lease_id: LeaseId,
    pub lease_epoch: LeaseEpoch,
    pub attempt_id: AttemptId,
}

/// Who asked for an operation.
#[derive(Debug)]
pub enum CancelSource {
    OperatorOverride,
    LeaseHolder,
    FlowCascade,
    SystemTimeout,
    Custom(String),
}

impl CancelSource {
    /// The wire word.
    pub open spec fn text_spec(self) -> Seq<char> {
        match self {
            CancelSource::OperatorOverride => "operator_override"@,
            CancelSource::LeaseHolder => "lease_holder"@,
            CancelSource::FlowCascade => "flow_cascade"@,
            CancelSource::SystemTimeout => "system_timeout"@,
            CancelSource::Custom(s) => s@,
        }
    }

    /// The wire word.
    pub fn as_str(&self) -> (r: &str)
        ensures
            r@ == self.text_spec(),
    {
        match self {
            CancelSource::OperatorOverride => "operator_override",
            CancelSource::LeaseHolder => "lease_holder",
            CancelSource::FlowCascade => "flow_cascade",
            CancelSource::SystemTimeout => "system_timeout",
            CancelSource::Custom(s) => s.as_str(),
        }
    }
}

/// A text, or what stands for a missing one.
pub open spec fn or_spec(o: Option<String>, default: Seq<char>) -> Seq<char> {
    match o {
        Some(s) => s@,
        None => default,
    }
}

/// A text, or what stands for a missing one.
pub fn or_text(o: &Option<String>, default: &str) -> (r: String)
    ensures
        r@ == or_spec(*o, default@),
{
    match o {
        Some(s) => s.as_str().to_owned(),
        None => default.to_owned(),
    }
}

/// A number, or what stands for a missing one.
pub open spec fn or_u64_spec(o: Option<u64>, default: u64) -> u64 {
    match o {
        Some(n) => n,
        None => default,
    }
}

/// A number, or what stands for a missing one.
pub fn or_u64(o: Option<u64>, default: u64) -> (r: u64)
    ensures
        r == or_u64_spec(o, default),
{
    match o {
        Some(n) => n,
        None => default,
    }
}

/// A number, or what stands for a missing one.
pub open spec fn or_u32_spec(o: Option<u32>, default: u32) -> u32 {
    match o {
        Some(n) => n,
        None => default,
    }
}

/// A number, or what stands for a missing one.
pub fn or_u32(o: Option<u32>, default: u32) -> (r: u32)
    ensures
        r == or_u32_spec(o, default),
{
    match o {
        Some(n) => n,
        None => default,
    }
}

/// A time in decimal, empty when there is none.
pub open spec fn opt_time_spec(o: Option<TimestampMs>) -> Seq<char> {
    match o {
        Some(t) => numbers::decimal(t.0 as int),
        None => Seq::empty(),
    }
}

/// A time in decimal, empty when there is none.
pub fn opt_time(o: Option<TimestampMs>) -> (r: String)
    ensures
        r@ == opt_time_spec(o),
{
    match o {
        Some(t) => numbers::i64_text(t.0),
        None => String::new(),
    }
}

/// A number in decimal, empty when there is none.
pub open spec fn opt_u64_spec(o: Option<u64>) -> Seq<char> {
    match o {
        Some(n) => numbers::decimal(n as int),
        None => Seq::empty(),
    }
}

/// A number in decimal, empty when there is none.
pub fn opt_u64(o: Option<u64>) -> (r: String)
    ensures
        r@ == opt_u64_spec(o),
{
    match o {
        Some(n) => numbers::u64_text(n),
        None => String::new(),
    }
}

/// A number in decimal, empty when there is none.
pub open spec fn opt_i64_spec(o: Option<i64>) -> Seq<char> {
    match o {
        Some(n) => numbers::decimal(n as int),
        None => Seq::empty(),
    }
}

/// A number in decimal, empty when there is none.
pub fn opt_i64(o: Option<i64>) -> (r: String)
    ensures
        r@ == opt_i64_spec(o),
{
    match o {
        Some(n) => numbers::i64_text(n),
        None => String::new(),
    }
}

/// A number in decimal, empty when there is none.
pub open spec fn opt_u8_spec(o: Option<u8>) -> Seq<char> {
    match o {
        Some(n) => numbers::decimal(n as int),
        None => Seq::empty(),
    }
}

/// A number in decimal, empty when there is none.
pub fn opt_u8(o: Option<u8>) -> (r: String)
    ensures
        r@ == opt_u8_spec(o),
{
    match o {
        Some(n) => numbers::u64_text(n as u64),
        None => String::new(),
    }
}

/// A lease, empty when there is none.
pub open spec fn opt_lease_spec(o: Option<LeaseId>) -> Seq<char> {
    match o {
        Some(id) => id@,
        None => Seq::empty(),
    }
}

/// A lease, empty when there is none.
pub fn opt_lease(o: &Option<LeaseId>) -> (r: String)
    ensures
        r@ == opt_lease_spec(*o),
{
    match o {
        Some(id) => id.as_str().to_owned(),
        None => String::new(),
    }
}

/// An epoch in decimal, empty when there is none.
pub open spec fn opt_epoch_spec(o: Option<LeaseEpoch>) -> Seq<char> {
    match o {
        Some(e) => numbers::decimal(e.0 as int),
        None => Seq::empty(),
    }
}

/// An epoch in decimal, empty when there is none.
pub fn opt_epoch(o: Option<LeaseEpoch>) -> (r: String)
    ensures
        r@ == opt_epoch_spec(o),
{
    match o {
        Some(e) => numbers::u64_text(e.0),
        None => String::new(),
    }
}

/// Bytes as text, empty when there are none.
pub open spec fn opt_lossy_spec(o: Option<Vec<u8>>) -> Seq<char> {
    match o {
        Some(b) => text::lossy_text(b@),
        None => Seq::empty(),
    }
}

/// Bytes as text, empty when there are none.
pub fn opt_lossy(o: &Option<Vec<u8>>) -> (r: String)
    ensures
        r@ == opt_lossy_spec(*o),
{
    match o {
        Some(b) => text::lossy(b.as_slice()),
        None => String::new(),
    }
}

/// The lease of a fence, empty without one.
pub open spec fn fence_lease_id_spec(o: Option<LeaseFence>) -> Seq<char> {
    match o {
        Some(f) => f.lease_id@,
        None => Seq::empty(),
    }
}

/// The lease of a fence, empty without one.
pub fn fence_lease_id(o: &Option<LeaseFence>) -> (r: String)
    ensures
        r@ == fence_lease_id_spec(*o),
{
    match o {
        Some(f) => f.lease_id.as_str().to_owned(),
        None => String::new(),
    }
}

/// The epoch of a fence, empty without one.
pub open spec fn fence_lease_epoch_spec(o: Option<LeaseFence>) -> Seq<char> {
    match o {
        Some(f) => numbers::decimal(f.lease_epoch.0 as int),
        None => Seq::empty(),
    }
}

/// The epoch of a fence, empty without one.
pub fn fence_lease_epoch(o: &Option<LeaseFence>) -> (r: String)
    ensures
        r@ == fence_lease_epoch_spec(*o),
{
    match o {
        Some(f) => numbers::u64_text(f.lease_epoch.0),
        None => String::new(),
    }
}

/// The attempt of a fence, empty without one.
pub open spec fn fence_attempt_id_spec(o: Option<LeaseFence>) -> Seq<char> {
    match o {
        Some(f) => f.attempt_id@,
        None => Seq::empty(),
    }
}

/// The attempt of a fence, empty without one.
pub fn fence_attempt_id(o: &Option<LeaseFence>) -> (r: String)
    ensures
        r@ == fence_attempt_id_spec(*o),
{
    match o {
        Some(f) => f.attempt_id.as_str().to_owned(),
        None => String::new(),
    }
}

/// Keys and values in turn.
pub open spec fn alternating(pairs: Seq<(Seq<char>, Seq<char>)>) -> Seq<Seq<char>> {
    Seq::new(
        2 * pairs.len(),
        |i: int|
            if i % 2 == 0 {
                pairs[i / 2].0
            } else {
                pairs[i / 2].1
            },
    )
}

/// The fields of a map, keys and values in turn, sorted by key.
pub fn flatten(fields: &FieldMap) -> (r: Vec<String>)
    ensures
        text::texts(r@) == alternating(fields.pairs()),
        field_map::ascending(fields.pairs()),
{
    let entries = fields.entries();
    let n: usize = entries.len();
    let mut out: Vec<String> = Vec::new();
    let mut i: usize = 0;
    while i < n
        invariant
            n == entries@.len(),
            field_map::pair_texts(entries@) == fields.pairs(),
            i <= n,
            out@.len() == 2 * i,
            forall|k: int|
                0 <= k < 2 * i ==> (#[trigger] out@[k])@ == alternating(fields.pairs())[k],
        decreases n - i,
    {
        assert(fields.pairs()[i as int] == (entries@[i as int].0@, entries@[i as int].1@));
        out.push(entries[i].0.as_str().to_owned());
        out.push(entries[i].1.as_str().to_owned());
        assert(2 * i / 2 == i && (2 * i + 1) / 2 == i);
        i = i + 1;
    }
    assert(text::texts(out@) =~= alternating(fields.pairs()));
    out
}

} // verus!
