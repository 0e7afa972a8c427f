//! Configuration of a worker.

use vstd::prelude::*;

use crate::names::{LaneId, Namespace, WorkerId, WorkerInstanceId};
use crate::partition::PartitionConfig;

verus! {

/// How to reach a storage backend, which the library hands on unread.
#[verifier::external_type_specification]
#[verifier::external_body]
pub struct ExBackendConfig(ff_core::backend::BackendConfig);

/// Configuration of a worker.
pub struct WorkerConfig {
    /// How to reach the backend, for a worker that dials it itself.
    pub backend: Option<ff_core::backend::BackendConfig>,
    /// The logical worker.
    pub worker_id: WorkerId,
    /// The worker process.
    pub worker_instance_id: WorkerInstanceId,
    /// The tenant.
    pub namespace: Namespace,
    /// Lanes to claim from. There must be at least one.
    pub lanes: Vec<LaneId>,
    /// What the worker is capable of.
    pub capabilities: Vec<String>,
    /// Life of a lease.
    pub lease_ttl_ms: u64,
    /// Pause between two polls.
    pub claim_poll_interval_ms: u64,
    /// Tasks to hold at a time. Zero counts as one.
    pub max_concurrent_tasks: usize,
    /// Number of partitions, where the backend does not publish it.
    pub partition_config: Option<PartitionConfig>,
}

impl WorkerConfig {
    /// The interval of lease renewal: a third of the lease's life.
    pub fn renewal_interval_ms(&self) -> (r: u64)
        ensures
            r == self.lease_ttl_ms / 3,
    {
        self.lease_ttl_ms / 3
    }

    /// Tasks that the worker holds at a time: at least one.
    pub open spec fn permits_spec(self) -> usize {
        if self.max_concurrent_tasks == 0 {
            1
        } else {
            self.max_concurrent_tasks
        }
    }

    /// Tasks that the worker holds at a time.
    pub fn permits(&self) -> (r: usize)
        ensures
            r == self.permits_spec(),
            r >= 1,
    {
        if self.max_concurrent_tasks == 0 {
            1
        } else {
            self.max_concurrent_tasks
        }
    }
}

} // verus!
