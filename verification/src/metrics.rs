//! Command metrics: one observation per handled command and an error counter
//! keyed by error cause. The recorder is an explicitly constructed, injected
//! value — not ambient global state — so the pipeline can be exercised without
//! a live metrics backend; exporting the counts is an outer layer's concern.

use vstd::prelude::*;

verus! {

/// A counter bumped by one, saturating at the top of its range.
pub open spec fn bumped(x: u64) -> u64 {
    if x < u64::MAX {
        (x + 1) as u64
    } else {
        x
    }
}

/// The executable counterpart of `bumped`.
pub fn bump(x: u64) -> (r: u64)
    ensures
        r == bumped(x),
{
    if x < u64::MAX {
        x + 1
    } else {
        x
    }
}

/// A recorder that has seen nothing yet.
pub open spec fn zeroed(m: Metrics) -> bool {
    &&& m.commands_handled == 0
    &&& m.invalid_identity_errors == 0
    &&& m.validation_errors == 0
    &&& m.conflict_errors == 0
    &&& m.store_errors == 0
    &&& m.notification_failures == 0
}

/// What the pipeline records: every handled command, and each failure under
/// the cause that produced it. An announcement failure is counted here and
/// nowhere else — it never fails the command it followed.
pub struct Metrics {
    pub commands_handled: u64,
    pub invalid_identity_errors: u64,
    pub validation_errors: u64,
    pub conflict_errors: u64,
    pub store_errors: u64,
    pub notification_failures: u64,
}

impl Metrics {
    /// A fresh recorder with every counter at zero.
    pub fn new() -> (r: Metrics)
        ensures
            zeroed(r),
    {
        Metrics {
            commands_handled: 0,
            invalid_identity_errors: 0,
            validation_errors: 0,
            conflict_errors: 0,
            store_errors: 0,
            notification_failures: 0,
        }
    }
}

} // verus!
