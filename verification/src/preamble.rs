//! What a worker does when it connects: claim its instance name, learn the number
//! of partitions and advertise its capabilities.
//!
//! Each stage says which command to send and takes the reply. A stage is reached
//! only through the one before it, so that the commands go out in order.

use vstd::prelude::*;
use vstd::string::*;

use crate::config::WorkerConfig;
use crate::field_map::FieldMap;
use crate::hash;
use crate::keys;
use crate::names::WorkerInstanceId;
use crate::numbers;
use crate::partition::PartitionConfig;
use crate::sdk_error;
use crate::sdk_error::{BackendError, SdkError, SdkErrorView};
use crate::text;
use crate::text_set;
use crate::text_set::TextSet;

verus! {

/// The most capabilities that a worker may advertise.
pub const CAPS_MAX_TOKENS: usize = 256;

/// The most bytes that the list of capabilities may take.
pub const CAPS_MAX_BYTES: usize = 4096;

// ── Capabilities ──

/// Whether a character may not stand in a capability besides the comma.
pub open spec fn unfit(c: char) -> bool {
    text::is_control_spec(c) || text::unicode_space(c)
}

/// What is wrong with a capability.
pub open spec fn fault(cap: Seq<char>) -> Option<Seq<char>> {
    if cap.len() == 0 {
        Some("capability token must not be empty"@)
    } else if cap.contains(',') {
        Some("capability token may not contain ',' (CSV delimiter): "@ + text::debug_text(cap))
    } else if exists|i: int| 0 <= i < cap.len() && unfit(#[trigger] cap[i]) {
        Some(
            "capability token must not contain whitespace or control characters: "@
                + text::debug_text(cap),
        )
    } else {
        None
    }
}

/// What is wrong with the first capability that something is wrong with.
pub open spec fn first_fault(caps: Seq<Seq<char>>) -> Option<Seq<char>>
    decreases caps.len(),
{
    if caps.len() == 0 {
        None
    } else {
        match fault(caps[0]) {
            Some(m) => Some(m),
            None => first_fault(caps.drop_first()),
        }
    }
}

/// A refusal of the configured capabilities.
pub open spec fn capabilities_error(message: Seq<char>) -> SdkErrorView {
    sdk_error::field_error("worker_config"@, "capabilities"@, message)
}

/// Capabilities as they are advertised: sorted, each once, separated by commas.
pub open spec fn csv_of(caps: Seq<Seq<char>>) -> Seq<char> {
    text::joined(text_set::sorted(caps.to_set()), ","@)
}

/// What is advertised, or why the capabilities are refused.
pub open spec fn advertised(caps: Seq<Seq<char>>) -> Result<Seq<char>, SdkErrorView> {
    let items = text_set::sorted(caps.to_set());
    let bytes = vstd::utf8::encode_utf8(csv_of(caps)).len();
    match first_fault(caps) {
        Some(m) => Err(capabilities_error(m)),
        None => if items.len() > CAPS_MAX_TOKENS {
            Err(
                capabilities_error(
                    "capability set exceeds CAPS_MAX_TOKENS (256): "@ + numbers::decimal(
                        items.len() as int,
                    ),
                ),
            )
        } else if bytes > CAPS_MAX_BYTES {
            Err(
                capabilities_error(
                    "capability CSV exceeds CAPS_MAX_BYTES (4096): "@ + numbers::decimal(
                        bytes as int,
                    ),
                ),
            )
        } else {
            Ok(csv_of(caps))
        },
    }
}

/// What is advertised depends neither on the order of the capabilities nor on how
/// often one is given.
pub proof fn law_csv_ignores_order_and_repeats(a: Seq<Seq<char>>, b: Seq<Seq<char>>)
    requires
        a.to_set() == b.to_set(),
    ensures
        csv_of(a) == csv_of(b),
{
}

/// Capabilities are refused for a bad one exactly when one of them is bad.
pub proof fn law_every_capability_is_checked(caps: Seq<Seq<char>>)
    ensures
        first_fault(caps) is None <==> forall|i: int|
            0 <= i < caps.len() ==> fault(#[trigger] caps[i]) is None,
    decreases caps.len(),
{
    if caps.len() > 0 {
        let rest = caps.drop_first();
        law_every_capability_is_checked(rest);
        if first_fault(caps) is None {
            assert forall|i: int| 0 <= i < caps.len() implies fault(#[trigger] caps[i]) is None by {
                if i > 0 {
                    assert(caps[i] == rest[i - 1]);
                }
            }
        }
        if forall|i: int| 0 <= i < caps.len() ==> fault(#[trigger] caps[i]) is None {
            assert forall|i: int| 0 <= i < rest.len() implies fault(#[trigger] rest[i]) is None by {
                assert(rest[i] == caps[i + 1]);
            }
        }
    }
}

fn has_unfit(cap: &str) -> (r: bool)
    ensures
        r == exists|i: int| 0 <= i < cap@.len() && unfit(#[trigger] cap@[i]),
{
    let x = text::chars_of(cap);
    let n: usize = x.len();
    let mut i: usize = 0;
    while i < n
        invariant
            x@ == cap@,
            n == x@.len(),
            i <= n,
            forall|k: int| 0 <= k < i ==> !unfit(#[trigger] cap@[k]),
        decreases n - i,
    {
        if text::is_control(x[i]) || text::is_space(x[i]) {
            assert(unfit(cap@[i as int]));
            return true;
        }
        i = i + 1;
    }
    false
}

fn quoted(message: &str, cap: &str) -> (r: String)
    ensures
        r@ == message@ + text::debug_text(cap@),
{
    let mut out = message.to_owned();
    out.append(text::debug(cap).as_str());
    out
}

fn check_one(cap: &str) -> (r: Option<String>)
    ensures
        text::opt_text(r) == fault(cap@),
{
    if cap.is_empty() {
        Some("capability token must not be empty".to_owned())
    } else if text::contains_char(cap, ',') {
        Some(quoted("capability token may not contain ',' (CSV delimiter): ", cap))
    } else if has_unfit(cap) {
        Some(
            quoted(
                "capability token must not contain whitespace or control characters: ",
                cap,
            ),
        )
    } else {
        None
    }
}

/// Check every capability; the first bad one is reported.
pub fn check_capabilities(caps: &Vec<String>) -> (r: Result<(), SdkError>)
    ensures
        match first_fault(text::texts(caps@)) {
            Some(m) => r matches Err(e) && e@ == capabilities_error(m),
            None => r is Ok,
        },
{
    let n: usize = caps.len();
    let mut i: usize = 0;
    assert(text::texts(caps@).skip(0) =~= text::texts(caps@));
    while i < n
        invariant
            n == caps@.len(),
            i <= n,
            first_fault(text::texts(caps@)) == first_fault(text::texts(caps@).skip(i as int)),
        decreases n - i,
    {
        let ghost rest = text::texts(caps@).skip(i as int);
        assert(rest[0] == caps@[i as int]@);
        assert(rest.drop_first() =~= text::texts(caps@).skip(i as int + 1));
        if let Some(m) = check_one(caps[i].as_str()) {
            return Err(sdk_error::bad_field("worker_config", "capabilities", m));
        }
        i = i + 1;
    }
    Ok(())
}

/// The list of capabilities to advertise.
pub fn capabilities_csv(caps: &Vec<String>) -> (r: Result<String, SdkError>)
    ensures
        match advertised(text::texts(caps@)) {
            Ok(csv) => r matches Ok(s) && s@ == csv,
            Err(e) => r matches Err(x) && x@ == e,
        },
{
    match check_capabilities(caps) {
        Ok(()) => {},
        Err(e) => {
            return Err(e);
        },
    }
    let set = TextSet::collect(caps);
    if set.len() > CAPS_MAX_TOKENS {
        let mut m = "capability set exceeds CAPS_MAX_TOKENS (256): ".to_owned();
        m.append(numbers::u64_text(set.len() as u64).as_str());
        return Err(sdk_error::bad_field("worker_config", "capabilities", m));
    }
    let csv = set.csv();
    let bytes: usize = csv.as_str().as_bytes().len();
    if bytes > CAPS_MAX_BYTES {
        let mut m = "capability CSV exceeds CAPS_MAX_BYTES (4096): ".to_owned();
        m.append(numbers::u64_text(bytes as u64).as_str());
        return Err(sdk_error::bad_field("worker_config", "capabilities", m));
    }
    Ok(csv)
}

/// The digest of a list of capabilities that stands for it in log lines.
pub open spec fn digest(csv: Seq<char>) -> Seq<char> {
    hash::hex8(hash::folded(hash::fnv1a(vstd::utf8::encode_utf8(csv))))
}

/// The digest of the capabilities as they are advertised.
pub fn capabilities_hash(caps: &Vec<String>) -> (r: String)
    ensures
        r@ == digest(csv_of(text::texts(caps@))),
{
    let csv = TextSet::collect(caps).csv();
    hash::fnv1a_xor8hex(csv.as_str())
}

// ── Partitions ──

/// A count of partitions in a published configuration, if it is above zero.
pub open spec fn count_of(fields: Map<Seq<char>, Seq<char>>, name: Seq<char>, default: u16) -> u16 {
    if fields.contains_key(name) {
        match numbers::parse_u16_spec(fields[name]) {
            Ok(n) => if n > 0 {
                n
            } else {
                default
            },
            Err(_) => default,
        }
    } else {
        default
    }
}

/// The partitions of a published configuration. A count that is missing,
/// unreadable or zero has its default.
pub open spec fn partitions_of(fields: Map<Seq<char>, Seq<char>>) -> PartitionConfig {
    PartitionConfig {
        num_flow_partitions: count_of(fields, "num_flow_partitions"@, 256),
        num_budget_partitions: count_of(fields, "num_budget_partitions"@, 32),
        num_quota_partitions: count_of(fields, "num_quota_partitions"@, 32),
    }
}

fn read_count(fields: &FieldMap, name: &str, default: u16) -> (r: u16)
    ensures
        r == count_of(fields@, name@, default),
{
    match fields.get(name) {
        Some(v) => match numbers::parse_u16(v.as_str()) {
            Ok(n) => if n > 0 {
                n
            } else {
                default
            },
            Err(_) => default,
        },
        None => default,
    }
}

/// The meaning of the reply to a read of the published configuration.
pub open spec fn partitions_reply(reply: Result<FieldMap, BackendError>) -> Result<
    PartitionConfig,
    SdkErrorView,
> {
    match reply {
        Err(e) => Err(
            SdkError::BackendContext { source: e@, context: "HGETALL ff:config:partitions"@ },
        ),
        Ok(fields) => if fields.pairs().len() == 0 {
            Err(
                SdkError::Config {
                    context: "read_partition_config"@,
                    field: None,
                    message: "ff:config:partitions not found in Valkey"@,
                },
            )
        } else {
            Ok(partitions_of(fields@))
        },
    }
}

/// Read the published number of partitions.
pub fn read_partition_config(reply: Result<FieldMap, BackendError>) -> (r: Result<
    PartitionConfig,
    SdkError,
>)
    ensures
        match partitions_reply(reply) {
            Ok(c) => r == Ok::<PartitionConfig, SdkError>(c),
            Err(e) => r matches Err(x) && x@ == e,
        },
{
    match reply {
        Err(e) => {
            let mut context = "HGETALL ".to_owned();
            context.append(keys::global_config_partitions().as_str());
            proof {
                reveal_strlit("HGETALL ");
                reveal_strlit("ff:config:partitions");
                reveal_strlit("HGETALL ff:config:partitions");
                assert(context@ =~= "HGETALL ff:config:partitions"@);
            }
            Err(sdk_error::backend_context(e, context))
        },
        Ok(fields) => if fields.len() == 0 {
            Err(
                sdk_error::bad_config(
                    "read_partition_config",
                    "ff:config:partitions not found in Valkey".to_owned(),
                ),
            )
        } else {
            Ok(
                PartitionConfig {
                    num_flow_partitions: read_count(&fields, "num_flow_partitions", 256),
                    num_budget_partitions: read_count(&fields, "num_budget_partitions", 32),
                    num_quota_partitions: read_count(&fields, "num_quota_partitions", 32),
                },
            )
        },
    }
}

/// Whatever is published, there is a partition of each family.
pub proof fn law_partitions_are_positive(fields: Map<Seq<char>, Seq<char>>)
    ensures
        partitions_of(fields).num_flow_partitions > 0,
        partitions_of(fields).num_budget_partitions > 0,
        partitions_of(fields).num_quota_partitions > 0,
{
}

// ── Stages ──

/// What a finished preamble hands to the worker.
pub struct PreambleOutput {
    pub partition_config: PartitionConfig,
    pub capabilities_csv: String,
    pub capabilities_hash: String,
}

/// The key that a live worker process holds.
pub open spec fn alive_key_spec(instance: Seq<char>) -> Seq<char> {
    "ff:worker:"@ + instance + ":alive"@
}

/// How long the key lives without a refresh: twice the lease's life, and at least
/// a second.
pub open spec fn alive_ttl(lease_ttl_ms: u64) -> u64 {
    if lease_ttl_ms > u64::MAX / 2 {
        u64::MAX
    } else if lease_ttl_ms < 500 {
        1_000
    } else {
        (lease_ttl_ms * 2) as u64
    }
}

fn alive_key(instance: &WorkerInstanceId) -> (r: String)
    ensures
        r@ == alive_key_spec(instance@),
{
    let mut out = "ff:worker:".to_owned();
    out.append(instance.as_str());
    out.append(":alive");
    out
}


/// The first stage: `PING` was sent.
pub struct Pinged {
    instance: WorkerInstanceId,
    lease_ttl_ms: u64,
}

/// The second stage: the claim of the instance name was sent.
pub struct Claiming {
    instance: WorkerInstanceId,
    lease_ttl_ms: u64,
}

/// The third stage: the published configuration was asked for.
pub struct Asking {
    instance: WorkerInstanceId,
}

/// The last stage: the capabilities are being advertised. What comes back does
/// not matter.
pub struct Advertising {
    instance: WorkerInstanceId,
    output: PreambleOutput,
}

impl Pinged {
    /// The name of the worker process.
    pub closed spec fn instance_spec(self) -> Seq<char> {
        self.instance@
    }

    /// The life of the worker's leases.
    pub closed spec fn ttl_spec(self) -> u64 {
        self.lease_ttl_ms
    }

    /// The command of this stage.
    pub fn command(&self) -> (r: Vec<String>)
        ensures
            text::texts(r@) == seq!["PING"@],
    {
        let mut out: Vec<String> = Vec::new();
        out.push("PING".to_owned());
        assert(text::texts(out@) =~= seq!["PING"@]);
        out
    }

    /// Take the reply. Only `PONG` leads on.
    pub fn answered(self, reply: Result<String, BackendError>) -> (r: Result<Claiming, SdkError>)
        ensures
            match reply {
                Err(e) => r matches Err(x) && x@ == (SdkErrorView::BackendContext {
                    source: e@,
                    context: "PING failed"@,
                }),
                Ok(pong) => if pong@ == "PONG"@ {
                    r matches Ok(next) && next.instance_spec() == self.instance_spec()
                        && next.ttl_spec() == self.ttl_spec()
                } else {
                    r matches Err(x) && x@ == (SdkErrorView::Config {
                        context: "worker_connect"@,
                        field: None,
                        message: "unexpected PING response: "@ + pong@,
                    })
                },
            },
    {
        match reply {
            Err(e) => Err(sdk_error::backend_context(e, "PING failed".to_owned())),
            Ok(pong) => if text::same(pong.as_str(), "PONG") {
                Ok(Claiming { instance: self.instance, lease_ttl_ms: self.lease_ttl_ms })
            } else {
                let mut m = "unexpected PING response: ".to_owned();
                m.append(pong.as_str());
                Err(sdk_error::bad_config("worker_connect", m))
            },
        }
    }
}

impl Claiming {
    /// The name of the worker process.
    pub closed spec fn instance_spec(self) -> Seq<char> {
        self.instance@
    }

    /// The life of the worker's leases.
    pub closed spec fn ttl_spec(self) -> u64 {
        self.lease_ttl_ms
    }

    /// The command of this stage: set the key unless another process holds it.
    pub fn command(&self) -> (r: Vec<String>)
        ensures
            text::texts(r@) == seq![
                "SET"@,
                alive_key_spec(self.instance_spec()),
                "1"@,
                "NX"@,
                "PX"@,
                numbers::decimal(alive_ttl(self.ttl_spec()) as int),
            ],
    {
        let ttl: u64 = if self.lease_ttl_ms > u64::MAX / 2 {
            u64::MAX
        } else if self.lease_ttl_ms < 500 {
            1_000
        } else {
            self.lease_ttl_ms * 2
        };
        let mut out: Vec<String> = Vec::new();
        out.push("SET".to_owned());
        out.push(alive_key(&self.instance));
        out.push("1".to_owned());
        out.push("NX".to_owned());
        out.push("PX".to_owned());
        out.push(numbers::u64_text(ttl));
        assert(text::texts(out@) =~= seq![
            "SET"@,
            alive_key_spec(self.instance_spec()),
            "1"@,
            "NX"@,
            "PX"@,
            numbers::decimal(alive_ttl(self.ttl_spec()) as int),
        ]);
        out
    }

    /// Take the reply. An empty one says that another process holds the key.
    pub fn answered(self, reply: Result<Option<String>, BackendError>) -> (r: Result<
        Asking,
        SdkError,
    >)
        ensures
            match reply {
                Err(e) => r matches Err(x) && x@ == (SdkErrorView::BackendContext {
                    source: e@,
                    context: "SET NX worker alive key"@,
                }),
                Ok(Some(_)) => r matches Ok(next) && next.instance_spec() == self.instance_spec(),
                Ok(None) => r matches Err(x) && x@ == sdk_error::field_error(
                    "worker_connect"@,
                    "worker_instance_id"@,
                    "duplicate worker_instance_id '"@ + self.instance_spec()
                        + "': another process already holds "@ + alive_key_spec(
                        self.instance_spec(),
                    ),
                ),
            },
    {
        match reply {
            Err(e) => Err(sdk_error::backend_context(e, "SET NX worker alive key".to_owned())),
            Ok(Some(_)) => Ok(Asking { instance: self.instance }),
            Ok(None) => {
                let mut m = "duplicate worker_instance_id '".to_owned();
                m.append(self.instance.as_str());
                m.append("': another process already holds ");
                m.append(alive_key(&self.instance).as_str());
                Err(sdk_error::bad_field("worker_connect", "worker_instance_id", m))
            },
        }
    }
}

impl Asking {
    /// The name of the worker process.
    pub closed spec fn instance_spec(self) -> Seq<char> {
        self.instance@
    }

    /// The command of this stage.
    pub fn command(&self) -> (r: Vec<String>)
        ensures
            text::texts(r@) == seq!["HGETALL"@, "ff:config:partitions"@],
    {
        let mut out: Vec<String> = Vec::new();
        out.push("HGETALL".to_owned());
        out.push(keys::global_config_partitions());
        assert(text::texts(out@) =~= seq!["HGETALL"@, "ff:config:partitions"@]);
        out
    }

    /// Take the reply, and check the capabilities. Without a published
    /// configuration the default one is taken.
    pub fn answered(self, config: &WorkerConfig, reply: Result<FieldMap, BackendError>) -> (r:
        Result<Advertising, SdkError>)
        ensures
            match advertised(text::texts(config.capabilities@)) {
                Err(e) => r matches Err(x) && x@ == e,
                Ok(csv) => r matches Ok(next) && next.instance_spec() == self.instance_spec()
                    && next.csv_spec() == csv && next.hash_spec() == digest(csv)
                    && next.partitions_spec() == match partitions_reply(reply) {
                    Ok(c) => c,
                    Err(_) => PartitionConfig::default_spec(),
                },
            },
    {
        let partition_config = match read_partition_config(reply) {
            Ok(c) => c,
            Err(_) => PartitionConfig::default(),
        };
        match capabilities_csv(&config.capabilities) {
            Err(e) => Err(e),
            Ok(csv) => {
                let digest = hash::fnv1a_xor8hex(csv.as_str());
                Ok(
                    Advertising {
                        instance: self.instance,
                        output: PreambleOutput {
                            partition_config,
                            capabilities_csv: csv,
                            capabilities_hash: digest,
                        },
                    },
                )
            },
        }
    }
}

impl Advertising {
    /// The name of the worker process.
    pub closed spec fn instance_spec(self) -> Seq<char> {
        self.instance@
    }

    /// The list of capabilities.
    pub closed spec fn csv_spec(self) -> Seq<char> {
        self.output.capabilities_csv@
    }

    /// The digest of the list.
    pub closed spec fn hash_spec(self) -> Seq<char> {
        self.output.capabilities_hash@
    }

    /// The number of partitions.
    pub closed spec fn partitions_spec(self) -> PartitionConfig {
        self.output.partition_config
    }

    /// The first command: write the capabilities, or remove them where there are
    /// none.
    pub fn capabilities_command(&self) -> (r: Vec<String>)
        ensures
            text::texts(r@) == if self.csv_spec().len() == 0 {
                seq!["DEL"@, "ff:worker:"@ + self.instance_spec() + ":caps"@]
            } else {
                seq!["SET"@, "ff:worker:"@ + self.instance_spec() + ":caps"@, self.csv_spec()]
            },
    {
        let mut out: Vec<String> = Vec::new();
        if self.output.capabilities_csv.as_str().is_empty() {
            out.push("DEL".to_owned());
            out.push(keys::worker_caps_key(&self.instance));
            assert(text::texts(out@) =~= seq!["DEL"@, "ff:worker:"@ + self.instance_spec() + ":caps"@]);
        } else {
            out.push("SET".to_owned());
            out.push(keys::worker_caps_key(&self.instance));
            out.push(self.output.capabilities_csv.as_str().to_owned());
            assert(text::texts(out@) =~= seq![
                "SET"@,
                "ff:worker:"@ + self.instance_spec() + ":caps"@,
                self.csv_spec(),
            ]);
        }
        out
    }

    /// The second command: enter the worker in the index, or take it out where it
    /// has no capabilities. It follows the first, so that whoever finds the worker
    /// in the index finds its capabilities too.
    pub fn index_command(&self) -> (r: Vec<String>)
        ensures
            text::texts(r@) == seq![
                if self.csv_spec().len() == 0 {
                    "SREM"@
                } else {
                    "SADD"@
                },
                "ff:idx:workers"@,
                self.instance_spec(),
            ],
    {
        let mut out: Vec<String> = Vec::new();
        if self.output.capabilities_csv.as_str().is_empty() {
            out.push("SREM".to_owned());
        } else {
            out.push("SADD".to_owned());
        }
        out.push(keys::workers_index_key());
        out.push(self.instance.as_str().to_owned());
        assert(text::texts(out@) =~= seq![
            if self.csv_spec().len() == 0 {
                "SREM"@
            } else {
                "SADD"@
            },
            "ff:idx:workers"@,
            self.instance_spec(),
        ]);
        out
    }

    /// What the worker starts with.
    pub fn finish(self) -> (r: PreambleOutput)
        ensures
            r.partition_config == self.partitions_spec(),
            r.capabilities_csv@ == self.csv_spec(),
            r.capabilities_hash@ == self.hash_spec(),
    {
        self.output
    }
}

/// Start the preamble of a worker.
pub fn run(config: &WorkerConfig) -> (r: Pinged)
    ensures
        r.instance_spec() == config.worker_instance_id@,
        r.ttl_spec() == config.lease_ttl_ms,
{
    Pinged { instance: config.worker_instance_id.copy(), lease_ttl_ms: config.lease_ttl_ms }
}

} // verus!
