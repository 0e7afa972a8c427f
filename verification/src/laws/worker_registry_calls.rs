//! Where a server finds what was asked for: calls of the registry of workers.

use vstd::prelude::*;
use vstd::string::*;

use crate::functions::worker_registry::{HeartbeatWorkerKeys, RegisterWorkerArgv, RegisterWorkerKeys, ff_heartbeat_worker, ff_register_worker};
use crate::numbers;
use crate::wire::Call;

verus! {

/// A registration tells the server, place by place, what was asked for.
pub proof fn law_register_worker_call(keys: &RegisterWorkerKeys<'_>, argv: &RegisterWorkerArgv<'_>, r: Call)
    requires
        call_ensures(ff_register_worker, (keys, argv), r),
    ensures
        r.function == "ff_register_worker",
        r.keys_spec().len() == 3,
        r.keys_spec()[0] == keys.alive_key@,
        r.keys_spec()[1] == keys.caps_key@,
        r.keys_spec()[2] == keys.index_key@,
        r.argv_spec().len() == 6,
        r.argv_spec()[0] == argv.instance_id@,
        r.argv_spec()[1] == argv.worker_id@,
        r.argv_spec()[2] == argv.lanes_csv@,
        r.argv_spec()[3] == argv.caps_csv@,
        r.argv_spec()[4] == numbers::decimal(argv.ttl_ms as int),
        r.argv_spec()[5] == numbers::decimal(argv.now_ms as int),
{
}

/// A heartbeat tells the server, place by place, what was asked for.
pub proof fn law_heartbeat_worker_call(keys: &HeartbeatWorkerKeys<'_>, now_ms: i64, r: Call)
    requires
        call_ensures(ff_heartbeat_worker, (keys, now_ms), r),
    ensures
        r.function == "ff_heartbeat_worker",
        r.keys_spec().len() == 2,
        r.keys_spec()[0] == keys.alive_key@,
        r.keys_spec()[1] == keys.caps_key@,
        r.argv_spec().len() == 1,
        r.argv_spec()[0] == numbers::decimal(now_ms as int),
{
}

} // verus!
