//! The engine's general guarantees, stated once over the components' models
//! and proved from what their contracts publish.

use vstd::prelude::*;
use crate::aggregate::{StateBuilder, project_spec};
use crate::event::Event;
use crate::eventific::creation_guard;
use crate::notification::published_durable;
use crate::store::{log_of, version_of, append_allowed, committed_wf, log_wf};

verus! {

/// Projection determinism: any two states the projector's contract admits for
/// the same builder and the same event sequence are equal — reconstruction is
/// a function of history alone.
pub proof fn lemma_projection_deterministic<S, D, B: StateBuilder<S, D>>(
    builder: B,
    events: Seq<Event<D>>,
    first: S,
    second: S,
)
    requires
        first == project_spec(builder, builder.spec_init(), events),
        second == project_spec(builder, builder.spec_init(), events),
    ensures
        first == second,
{
}

/// Monotonic contiguous versioning: in any well-formed committed map — and
/// every store operation keeps the map well-formed — an aggregate holding M
/// events holds them under the sequence numbers `1..=M`, in order, so loading
/// it returns exactly those M events.
pub proof fn lemma_monotonic_contiguous_versioning<D>(
    m: Map<u128, Seq<Event<D>>>,
    aggregate_id: u128,
)
    requires
        committed_wf(m),
    ensures
        forall|k: int|
            0 <= k < log_of(m, aggregate_id).len() ==> (#[trigger] log_of(
                m,
                aggregate_id,
            )[k]).sequence_number as int == k + 1 && log_of(m, aggregate_id)[k].aggregate_id
                == aggregate_id,
{
    if m.contains_key(aggregate_id) {
        assert(log_wf(m[aggregate_id], aggregate_id));
    }
}

/// Optimistic concurrency: from an aggregate at version V, the guard
/// `Some(V)` admits the append the store linearizes first; once that append
/// has committed a non-empty batch, the same guard can no longer hold, so the
/// store refuses the second append — by its contract, with a conflict naming
/// the expected V and the advanced actual version, persisting nothing for it.
pub proof fn lemma_optimistic_concurrency<D>(
    m: Map<u128, Seq<Event<D>>>,
    aggregate_id: u128,
    v: u64,
    winner: Seq<Event<D>>,
)
    requires
        version_of(m, aggregate_id) == v as int,
        winner.len() > 0,
    ensures
        append_allowed(m, aggregate_id, Option::Some(v)),
        !append_allowed(
            m.insert(aggregate_id, log_of(m, aggregate_id) + winner),
            aggregate_id,
            Option::Some(v),
        ),
        version_of(m.insert(aggregate_id, log_of(m, aggregate_id) + winner), aggregate_id)
            == v as int + winner.len(),
{
}

/// Create-with-existence-guard: against an identity that already has events,
/// strict creation's guard (version exactly 0) cannot hold, so the append is
/// refused — by the store's contract, with a conflict, leaving the existing
/// log untouched.
pub proof fn lemma_create_guard<D>(m: Map<u128, Seq<Event<D>>>, aggregate_id: u128)
    requires
        version_of(m, aggregate_id) > 0,
    ensures
        !append_allowed(m, aggregate_id, creation_guard(true)),
{
}

/// Notification after durability: any event of any announced batch — and a
/// listener observes only announced batches — is already persisted for its
/// aggregate, at the position its sequence number names.
pub proof fn lemma_notification_after_durability<D>(
    published: Seq<Seq<Event<D>>>,
    m: Map<u128, Seq<Event<D>>>,
    i: int,
    j: int,
)
    requires
        published_durable(published, m),
        0 <= i < published.len(),
        0 <= j < published[i].len(),
    ensures
        ({
            let e = published[i][j];
            &&& log_of(m, e.aggregate_id).len() >= e.sequence_number as int >= 1
            &&& log_of(m, e.aggregate_id)[e.sequence_number as int - 1] == e
        }),
{
}

} // verus!
