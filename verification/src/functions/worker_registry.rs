//! Calls of the worker registry.

use vstd::prelude::*;
use vstd::string::*;

use crate::error;
use crate::error::{ScriptError, ScriptErrorView};
use crate::fields;
use crate::fields::FromFcallResult;
use crate::ids::TimestampMs;
use crate::numbers;
use crate::result;
use crate::text;
use crate::value::Value;
use crate::wire::Call;

verus! {

/// Arguments of [`ff_register_worker`]. The lists are sorted and without
/// duplicates.
pub struct RegisterWorkerArgv<'a> {
    pub instance_id: &'a str,
    pub worker_id: &'a str,
    pub lanes_csv: &'a str,
    pub caps_csv: &'a str,
    pub ttl_ms: u64,
    pub now_ms: i64,
}

/// Keys of [`ff_register_worker`].
pub struct RegisterWorkerKeys<'a> {
    pub alive_key: &'a str,
    pub caps_key: &'a str,
    pub index_key: &'a str,
}

/// Register a worker, or refresh its registration.
pub fn ff_register_worker(keys: &RegisterWorkerKeys, argv: &RegisterWorkerArgv) -> (r: Call)
    ensures
        r.function == "ff_register_worker",
        r.keys_spec() == seq![keys.alive_key@, keys.caps_key@, keys.index_key@],
        r.argv_spec() == seq![
            argv.instance_id@,
            argv.worker_id@,
            argv.lanes_csv@,
            argv.caps_csv@,
            numbers::decimal(argv.ttl_ms as int),
            numbers::decimal(argv.now_ms as int),
        ],
{
    let mut k: Vec<String> = Vec::new();
    k.push(keys.alive_key.to_owned());
    k.push(keys.caps_key.to_owned());
    k.push(keys.index_key.to_owned());
    let mut a: Vec<String> = Vec::new();
    a.push(argv.instance_id.to_owned());
    a.push(argv.worker_id.to_owned());
    a.push(argv.lanes_csv.to_owned());
    a.push(argv.caps_csv.to_owned());
    a.push(numbers::u64_text(argv.ttl_ms));
    a.push(numbers::i64_text(argv.now_ms));
    Call { function: "ff_register_worker", keys: k, argv: a }
}

/// Outcome of a registration.
#[derive(Clone, Copy, Debug, PartialEq, Eq, Structural)]
pub enum RegisterWorkerOutcome {
    Registered,
    Refreshed,
}

impl View for RegisterWorkerOutcome {
    type V = RegisterWorkerOutcome;

    open spec fn view(&self) -> RegisterWorkerOutcome {
        *self
    }
}

/// The meaning of a reply to a registration.
pub open spec fn register_reply(raw: Value) -> Result<RegisterWorkerOutcome, ScriptErrorView> {
    match result::accepted(raw) {
        Err(e) => Err(e),
        Ok(f) => if f.field(0) == "registered"@ {
            Ok(RegisterWorkerOutcome::Registered)
        } else if f.field(0) == "refreshed"@ {
            Ok(RegisterWorkerOutcome::Refreshed)
        } else {
            Err(
                error::parse_error(
                    "ff_register_worker"@,
                    "unexpected outcome tag: "@ + text::debug_text(f.field(0)),
                ),
            )
        },
    }
}

impl FromFcallResult for RegisterWorkerOutcome {
    fn from_fcall_result(raw: &Value) -> (r: Result<RegisterWorkerOutcome, ScriptError>)
        ensures
            fields::agrees(r, register_reply(*raw)),
    {
        match result::accept(raw) {
            Err(e) => Err(e),
            Ok(f) => {
                let tag = f.field_str(0);
                if text::same(tag.as_str(), "registered") {
                    Ok(RegisterWorkerOutcome::Registered)
                } else if text::same(tag.as_str(), "refreshed") {
                    Ok(RegisterWorkerOutcome::Refreshed)
                } else {
                    Err(
                        error::unreadable(
                            "ff_register_worker",
                            error::prefixed(
                                "unexpected outcome tag: ",
                                text::debug(tag.as_str()).as_str(),
                            ),
                        ),
                    )
                }
            },
        }
    }
}

/// A reply to a heartbeat.
#[derive(Clone, Copy, Debug, PartialEq, Eq, Structural)]
pub struct HeartbeatWorkerReply {
    pub outcome_tag: HeartbeatReplyTag,
}

/// What a heartbeat found.
#[derive(Clone, Copy, Debug, PartialEq, Eq, Structural)]
pub enum HeartbeatReplyTag {
    NotRegistered,
    /// The registration lives for `ttl_ms` more.
    Refreshed { ttl_ms: u64 },
}

impl View for HeartbeatWorkerReply {
    type V = HeartbeatWorkerReply;

    open spec fn view(&self) -> HeartbeatWorkerReply {
        *self
    }
}

/// The meaning of a reply to a heartbeat.
pub open spec fn heartbeat_reply(raw: Value) -> Result<HeartbeatWorkerReply, ScriptErrorView> {
    match result::accepted(raw) {
        Err(e) => Err(e),
        Ok(f) => if f.field(0) == "not_registered"@ {
            Ok(HeartbeatWorkerReply { outcome_tag: HeartbeatReplyTag::NotRegistered })
        } else if f.field(0) == "refreshed"@ {
            match numbers::parse_u64_spec(f.field(1)) {
                Ok(ttl_ms) => Ok(
                    HeartbeatWorkerReply { outcome_tag: HeartbeatReplyTag::Refreshed { ttl_ms } },
                ),
                Err(e) => Err(
                    error::parse_error(
                        "ff_heartbeat_worker"@,
                        "refreshed: ttl_ms not a u64 ("@ + text::debug_text(f.field(1)) + "): "@
                            + e.text_spec(),
                    ),
                ),
            }
        } else {
            Err(
                error::parse_error(
                    "ff_heartbeat_worker"@,
                    "unexpected outcome tag: "@ + text::debug_text(f.field(0)),
                ),
            )
        },
    }
}

impl FromFcallResult for HeartbeatWorkerReply {
    fn from_fcall_result(raw: &Value) -> (r: Result<HeartbeatWorkerReply, ScriptError>)
        ensures
            fields::agrees(r, heartbeat_reply(*raw)),
    {
        let f = match result::accept(raw) {
            Ok(f) => f,
            Err(e) => {
                return Err(e);
            },
        };
        let tag = f.field_str(0);
        if text::same(tag.as_str(), "not_registered") {
            Ok(HeartbeatWorkerReply { outcome_tag: HeartbeatReplyTag::NotRegistered })
        } else if text::same(tag.as_str(), "refreshed") {
            let ttl = f.field_str(1);
            match numbers::parse_u64(ttl.as_str()) {
                Ok(ttl_ms) => Ok(
                    HeartbeatWorkerReply { outcome_tag: HeartbeatReplyTag::Refreshed { ttl_ms } },
                ),
                Err(e) => {
                    let mut message = "refreshed: ttl_ms not a u64 (".to_owned();
                    message.append(text::debug(ttl.as_str()).as_str());
                    message.append("): ");
                    message.append(e.text());
                    Err(error::unreadable("ff_heartbeat_worker", message))
                },
            }
        } else {
            Err(
                error::unreadable(
                    "ff_heartbeat_worker",
                    error::prefixed(
                        "unexpected outcome tag: ",
                        text::debug(tag.as_str()).as_str(),
                    ),
                ),
            )
        }
    }
}

/// Keys of [`ff_heartbeat_worker`].
pub struct HeartbeatWorkerKeys<'a> {
    pub alive_key: &'a str,
    pub caps_key: &'a str,
}

/// Tell the registry that a worker is alive.
pub fn ff_heartbeat_worker(keys: &HeartbeatWorkerKeys, now_ms: i64) -> (r: Call)
    ensures
        r.function == "ff_heartbeat_worker",
        r.keys_spec() == seq![keys.alive_key@, keys.caps_key@],
        r.argv_spec() == seq![numbers::decimal(now_ms as int)],
{
    let mut k: Vec<String> = Vec::new();
    k.push(keys.alive_key.to_owned());
    k.push(keys.caps_key.to_owned());
    let mut a: Vec<String> = Vec::new();
    a.push(numbers::i64_text(now_ms));
    Call { function: "ff_heartbeat_worker", keys: k, argv: a }
}

/// Outcome of a heartbeat.
#[derive(Clone, Copy, Debug, PartialEq, Eq, Structural)]
pub enum HeartbeatWorkerOutcome {
    NotRegistered,
    Refreshed { next_expiry_ms: TimestampMs },
}

/// `now` plus a signed lifetime, held to the range of times.
pub open spec fn expiry_after(now_ms: i64, ttl_ms: u64) -> i64 {
    let sum = now_ms + numbers::signed(ttl_ms);
    if sum > i64::MAX {
        i64::MAX
    } else if sum < i64::MIN {
        i64::MIN
    } else {
        sum as i64
    }
}

fn next_expiry(now_ms: i64, ttl_ms: u64) -> (r: i64)
    ensures
        r == expiry_after(now_ms, ttl_ms),
{
    let sum: i128 = now_ms as i128 + numbers::as_signed(ttl_ms);
    if sum > i64::MAX as i128 {
        i64::MAX
    } else if sum < i64::MIN as i128 {
        i64::MIN
    } else {
        sum as i64
    }
}

/// When the registration expires, if there is one.
pub fn heartbeat_outcome(reply: &HeartbeatWorkerReply, now_ms: i64) -> (r: HeartbeatWorkerOutcome)
    ensures
        r == match reply.outcome_tag {
            HeartbeatReplyTag::NotRegistered => HeartbeatWorkerOutcome::NotRegistered,
            HeartbeatReplyTag::Refreshed { ttl_ms } => HeartbeatWorkerOutcome::Refreshed {
                next_expiry_ms: TimestampMs(expiry_after(now_ms, ttl_ms)),
            },
        },
{
    match reply.outcome_tag {
        HeartbeatReplyTag::NotRegistered => HeartbeatWorkerOutcome::NotRegistered,
        HeartbeatReplyTag::Refreshed { ttl_ms } => HeartbeatWorkerOutcome::Refreshed {
            next_expiry_ms: TimestampMs(next_expiry(now_ms, ttl_ms)),
        },
    }
}

} // verus!
