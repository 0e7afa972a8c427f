//! Partitions of the key space.

use vstd::prelude::*;
use vstd::string::*;

use crate::ids;
use crate::ids::{ExecutionId, FlowId};
use crate::numbers;

verus! {

/// Families of partitions. Executions live in their flow's partition, so that
/// the two share a hash tag.
#[derive(Clone, Copy, Debug, PartialEq, Eq, Structural)]
pub enum PartitionFamily {
    Flow,
    Execution,
    Budget,
    Quota,
}

/// Number of partitions of each family, fixed for a deployment.
#[derive(Clone, Copy, Debug, PartialEq, Eq, Structural)]
pub struct PartitionConfig {
    pub num_flow_partitions: u16,
    pub num_budget_partitions: u16,
    pub num_quota_partitions: u16,
}

impl PartitionConfig {
    /// 256 flow partitions, 32 budget partitions and 32 quota partitions.
    pub open spec fn default_spec() -> PartitionConfig {
        PartitionConfig {
            num_flow_partitions: 256,
            num_budget_partitions: 32,
            num_quota_partitions: 32,
        }
    }
}

impl Default for PartitionConfig {
    fn default() -> (r: PartitionConfig)
        ensures
            r == PartitionConfig::default_spec(),
    {
        PartitionConfig {
            num_flow_partitions: 256,
            num_budget_partitions: 32,
            num_quota_partitions: 32,
        }
    }
}

/// A partition.
#[derive(Clone, Copy, Debug, PartialEq, Eq, Structural)]
pub struct Partition {
    pub family: PartitionFamily,
    pub index: u16,
}

impl PartitionFamily {
    /// The prefix in the family's hash tags.
    pub open spec fn prefix_spec(self) -> &'static str {
        match self {
            PartitionFamily::Flow | PartitionFamily::Execution => "fp",
            PartitionFamily::Budget => "b",
            PartitionFamily::Quota => "q",
        }
    }

    /// The prefix in the family's hash tags.
    pub fn prefix(self) -> (r: &'static str)
        ensures
            r == self.prefix_spec(),
    {
        match self {
            PartitionFamily::Flow | PartitionFamily::Execution => "fp",
            PartitionFamily::Budget => "b",
            PartitionFamily::Quota => "q",
        }
    }
}

impl Partition {
    /// `{<prefix>:<index>}`.
    pub open spec fn tag_spec(self) -> Seq<char> {
        "{"@ + self.family.prefix_spec()@ + ":"@ + numbers::decimal(self.index as int) + "}"@
    }

    /// The hash tag of the partition, such as `{fp:7}`.
    pub fn hash_tag(&self) -> (r: String)
        ensures
            r@ == self.tag_spec(),
    {
        let mut out = "{".to_owned();
        out.append(self.family.prefix());
        out.append(":");
        out.append(numbers::u64_text(self.index as u64).as_str());
        out.append("}");
        out
    }
}

/// The partition of an execution: the one in its identity.
pub fn execution_partition(eid: &ExecutionId) -> (r: Partition)
    ensures
        r.family == PartitionFamily::Execution,
        ids::tagged(eid@, r.index),
{
    Partition { family: PartitionFamily::Execution, index: eid.partition() }
}

/// The index that `ff_core::partition::flow_partition` gives a flow among `n`
/// flow partitions.
pub uninterp spec fn flow_index_of(flow: Seq<char>, n: u16) -> u16;

/// The index of `ff_core::partition::flow_partition` for the flow with this text
/// among `n` flow partitions: the one named `flow_index_of`, below `n`.
#[verifier::external_body]
fn flow_index(flow: &str, n: u16) -> (r: u16)
    requires
        n > 0,
        ids::flow_id_of(flow@) is Ok,
    ensures
        r == flow_index_of(flow@, n),
        r < n,
{
    let mut config = ff_core::partition::PartitionConfig::default();
    config.num_flow_partitions = n;
    match ff_core::types::FlowId::parse(flow) {
        Ok(id) => ff_core::partition::flow_partition(&id, &config).index,
        Err(_) => 0,
    }
}

/// The partition of a flow.
pub fn flow_partition(fid: &FlowId, config: &PartitionConfig) -> (r: Partition)
    requires
        config.num_flow_partitions > 0,
    ensures
        r.family == PartitionFamily::Flow,
        r.index == flow_index_of(fid@, config.num_flow_partitions),
        r.index < config.num_flow_partitions,
{
    Partition {
        family: PartitionFamily::Flow,
        index: flow_index(fid.as_str(), config.num_flow_partitions),
    }
}

impl Partition {
    /// The partition with its family as the hash tag tells it: the one of an
    /// execution is the one of its flow.
    pub open spec fn routed(self) -> Partition {
        if self.family == PartitionFamily::Execution {
            Partition { family: PartitionFamily::Flow, index: self.index }
        } else {
            self
        }
    }
}

/// Whether a key is the hash tag of a partition.
pub open spec fn is_tag(key: Seq<char>) -> bool {
    exists|p: Partition| key == #[trigger] p.tag_spec()
}

/// What `ff_core::partition::PartitionKey::parse` makes of a key that is not the hash
/// tag of a partition.
pub uninterp spec fn other_key(key: Seq<char>) -> Result<Partition, Seq<char>>;

/// The partition that a key names, or why it names none. A hash tag names its
/// partition, except that an execution's names its flow's.
pub open spec fn partition_of_key(key: Seq<char>) -> Result<Partition, Seq<char>> {
    if is_tag(key) {
        Ok((choose|p: Partition| key == #[trigger] p.tag_spec()).routed())
    } else {
        other_key(key)
    }
}

/// The outcome of reading a key, over its texts.
pub open spec fn key_view(r: Result<Partition, String>) -> Result<Partition, Seq<char>> {
    match r {
        Ok(p) => Ok(p),
        Err(e) => Err(e@),
    }
}

/// Whether `r` is the reading of a key that is the hash tag of a partition.
pub open spec fn reads_back(key: Seq<char>, r: Result<Partition, String>) -> bool {
    forall|p: Partition| key == #[trigger] p.tag_spec() ==> r == Ok::<Partition, String>(p.routed())
}

/// `ff_core::partition::PartitionKey::parse`: the hash tag of a partition is read back
/// as that partition, except that an execution's is read as its flow's. What becomes of
/// other keys is named `other_key`.
#[verifier::external_body]
fn parse_key(key: &str) -> (r: Result<Partition, String>)
    ensures
        reads_back(key@, r),
        !is_tag(key@) ==> key_view(r) == other_key(key@),
{
    let value = serde_json::Value::String(key.to_owned());
    let key: ff_core::partition::PartitionKey = serde_json::from_value(value).unwrap();
    let p = key.parse().map_err(|e| e.to_string())?;
    let family = match p.family {
        ff_core::partition::PartitionFamily::Flow => PartitionFamily::Flow,
        ff_core::partition::PartitionFamily::Execution => PartitionFamily::Execution,
        ff_core::partition::PartitionFamily::Budget => PartitionFamily::Budget,
        ff_core::partition::PartitionFamily::Quota => PartitionFamily::Quota,
    };
    Ok(Partition { family, index: p.index })
}

/// The partition that a hash tag names.
pub fn partition_from_key(key: &str) -> (r: Result<Partition, String>)
    ensures
        key_view(r) == partition_of_key(key@),
        reads_back(key@, r),
{
    parse_key(key)
}

/// Partitions with the same hash tag differ at most in being an execution's or its
/// flow's.
proof fn lemma_tags_differ(p: Partition, q: Partition)
    requires
        p.tag_spec() == q.tag_spec(),
    ensures
        p.routed() == q.routed(),
{
    reveal_strlit("{");
    reveal_strlit("fp");
    reveal_strlit("b");
    reveal_strlit("q");
    reveal_strlit(":");
    reveal_strlit("}");
    let a = p.family.prefix_spec()@;
    let b = q.family.prefix_spec()@;
    let s = p.tag_spec();
    assert(s[1] == a[0]);
    assert(s[1] == b[0]);
    assert(a =~= b);
    let x = numbers::decimal(p.index as int);
    let y = numbers::decimal(q.index as int);
    let from = 2 + a.len() as int;
    assert(s.len() == from + x.len() + 1);
    assert(s.len() == from + y.len() + 1);
    assert(x =~= s.subrange(from, from + x.len()));
    assert(y =~= s.subrange(from, from + y.len()));
    numbers::law_u64_round_trip(p.index as u64);
    numbers::law_u64_round_trip(q.index as u64);
}

/// The hash tag of a partition names that partition, except that an execution's names
/// its flow's.
pub proof fn law_tag_names_its_partition(p: Partition)
    ensures
        partition_of_key(p.tag_spec()) == Ok::<Partition, Seq<char>>(p.routed()),
{
    let key = p.tag_spec();
    assert(is_tag(key));
    let q = choose|q: Partition| key == #[trigger] q.tag_spec();
    lemma_tags_differ(p, q);
}

} // verus!
