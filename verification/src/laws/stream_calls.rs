//! Where a server finds what was asked for: calls of streams.

use vstd::prelude::*;
use vstd::string::*;

use crate::functions::stream::{AppendFrameArgs, ReadFramesArgs, StreamOpKeys, ff_append_frame, ff_read_attempt_stream};
use crate::numbers;
use crate::text;
use crate::wire::Call;

verus! {

/// A frame tells the server, place by place, what was asked for.
pub proof fn law_append_frame_call(k: &StreamOpKeys<'_>, args: &AppendFrameArgs, r: Call)
    requires
        call_ensures(ff_append_frame, (k, args), r),
    ensures
        r.function == "ff_append_frame",
        r.keys_spec().len() == 3,
        r.keys_spec()[0] == k.ctx.core_key_spec(),
        r.keys_spec()[1] == k.ctx.stream_spec(args.attempt_index),
        r.keys_spec()[2] == k.ctx.stream_meta_spec(args.attempt_index),
        r.argv_spec().len() == 13,
        r.argv_spec()[0] == args.execution_id@,
        r.argv_spec()[1] == numbers::decimal(args.attempt_index.0 as int),
        r.argv_spec()[2] == args.lease_id@,
        r.argv_spec()[3] == numbers::decimal(args.lease_epoch.0 as int),
        r.argv_spec()[4] == args.frame_type@,
        r.argv_spec()[5] == numbers::decimal(args.timestamp.0 as int),
        r.argv_spec()[6] == text::lossy_text(args.payload@),
        args.encoding matches Some(s) ==> r.argv_spec()[7] == s@,
        args.encoding is None ==> r.argv_spec()[7] == "utf8"@,
        args.correlation_id matches Some(s) ==> r.argv_spec()[8] == s@,
        args.correlation_id is None ==> r.argv_spec()[8].len() == 0,
        args.source matches Some(s) ==> r.argv_spec()[9] == s@,
        args.source is None ==> r.argv_spec()[9] == "worker"@,
        args.retention_maxlen matches Some(n) ==> r.argv_spec()[10] == numbers::decimal(n as int),
        args.retention_maxlen is None ==> r.argv_spec()[10] == numbers::decimal(0),
        r.argv_spec()[11] == args.attempt_id@,
        args.max_payload_bytes matches Some(n) ==> r.argv_spec()[12] == numbers::decimal(n as int),
        args.max_payload_bytes is None ==> r.argv_spec()[12] == numbers::decimal(65536),
{
    reveal_strlit("");
}

/// A read of a stream tells the server, place by place, what was asked for.
pub proof fn law_read_attempt_stream_call(k: &StreamOpKeys<'_>, args: &ReadFramesArgs, r: Call)
    requires
        call_ensures(ff_read_attempt_stream, (k, args), r),
    ensures
        r.function == "ff_read_attempt_stream",
        r.keys_spec().len() == 2,
        r.keys_spec()[0] == k.ctx.stream_spec(args.attempt_index),
        r.keys_spec()[1] == k.ctx.stream_meta_spec(args.attempt_index),
        r.argv_spec().len() == 3,
        r.argv_spec()[0] == args.from_id@,
        r.argv_spec()[1] == args.to_id@,
        r.argv_spec()[2] == numbers::decimal(args.count_limit as int),
{
}

} // verus!
