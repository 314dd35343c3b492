//! The backend of platforms on which processes cannot be listed.
use vstd::prelude::*;

use crate::refresh_plan::{asks_for_nothing, PlatformCapabilities};
use crate::request::{ProcessField, ProcessRefreshKind};
use crate::time::Duration;

verus! {

/// Least time between two CPU usage computations: none is ever made.
pub fn minimum_cpu_update_interval() -> (r: Duration)
    ensures
        r.nanos == 0,
{
    Duration::zero()
}

/// What this backend provides: it lists no process, so it claims no field.
pub fn process_refresh_capabilities() -> (r: PlatformCapabilities)
    ensures
        !r@.can_list_processes,
        asks_for_nothing(r@.supported_fields),
        !r@.supported_fields.cpu,
        forall|field: ProcessField| !#[trigger] r@.supported_fields.requests(field),
        r@.min_cpu_update_interval.nanos == 0,
{
    PlatformCapabilities::new(
        ProcessRefreshKind::nothing().without_tasks(),
        minimum_cpu_update_interval(),
        false,
    )
}

} // verus!
