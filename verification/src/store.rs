//! The event store: a durable, ordered, per-aggregate append log with
//! optimistic-concurrency-checked writes.

use vstd::prelude::*;
use crate::event::{Event, EventData, dup_events};

verus! {

/// A backend failure while reading or initializing.
#[derive(Debug)]
pub enum StoreError {
    Unavailable,
}

/// Why an append was refused.
#[derive(Debug)]
pub enum AppendError {
    /// The optimistic-concurrency precondition failed: the caller expected the
    /// aggregate to be at `expected`, but the persisted version was `actual`.
    /// Nothing was persisted.
    Conflict { expected: u64, actual: u64 },
    /// A backend failure. Nothing was persisted.
    Unavailable,
}

/// The stored event log of one aggregate; empty if the aggregate does not
/// exist yet (absence is not an error).
pub open spec fn log_of<D>(m: Map<u128, Seq<Event<D>>>, aggregate_id: u128) -> Seq<Event<D>> {
    if m.contains_key(aggregate_id) {
        m[aggregate_id]
    } else {
        Seq::empty()
    }
}

/// An aggregate's current version: the highest sequence number persisted for
/// it, 0 if it has no events.
pub open spec fn version_of<D>(m: Map<u128, Seq<Event<D>>>, aggregate_id: u128) -> int {
    log_of(m, aggregate_id).len() as int
}

/// The optimistic-concurrency precondition: `None` means append
/// unconditionally, `Some(v)` means the persisted version must equal `v`
/// exactly at the moment of the write.
pub open spec fn append_allowed<D>(
    m: Map<u128, Seq<Event<D>>>,
    aggregate_id: u128,
    expected_version: Option<u64>,
) -> bool {
    match expected_version {
        Option::None => true,
        Option::Some(v) => version_of(m, aggregate_id) == v as int,
    }
}

/// A well-formed log: every event carries the owning identity, and the
/// sequence numbers form the contiguous range `1..=len`, in order.
pub open spec fn log_wf<D>(log: Seq<Event<D>>, aggregate_id: u128) -> bool {
    forall|k: int|
        0 <= k < log.len() ==> (#[trigger] log[k]).aggregate_id == aggregate_id
            && log[k].sequence_number as int == k + 1
}

/// Every stored log is well-formed.
pub open spec fn committed_wf<D>(m: Map<u128, Seq<Event<D>>>) -> bool {
    forall|id: u128| m.contains_key(id) ==> log_wf(#[trigger] m[id], id)
}

/// What a successful append materializes on top of a log of length `from`:
/// one event per supplied payload, in the order supplied, numbered
/// `from + 1 ..= from + payloads.len()`. Timestamps are the backend's choice.
pub open spec fn batch_wf<D>(
    batch: Seq<Event<D>>,
    aggregate_id: u128,
    from: int,
    payloads: Seq<D>,
) -> bool {
    &&& batch.len() == payloads.len()
    &&& forall|k: int|
        0 <= k < batch.len() ==> {
            &&& (#[trigger] batch[k]).aggregate_id == aggregate_id
            &&& batch[k].sequence_number as int == from + k + 1
            &&& batch[k].payload == payloads[k]
        }
}

/// The pluggable persistence capability. Any backend (in-memory, disk-backed,
/// networked) must meet exactly this contract; `committed` is its durable
/// content, one ordered event log per identity.
pub trait Store<D: EventData>: Sized {
    /// The durable content: for each identity, the events persisted for it,
    /// ordered by sequence number.
    spec fn committed(&self) -> Map<u128, Seq<Event<D>>>;

    /// Whether the backend can currently fail with `Unavailable`. The
    /// in-memory reference store never does; a networked backend may.
    spec fn reliable(&self) -> bool;

    /// Backend well-formedness, established by `init` and preserved by every
    /// operation.
    spec fn inv(&self) -> bool;

    /// A well-formed backend holds only well-formed logs.
    proof fn inv_implies_committed_wf(&self)
        requires
            self.inv(),
        ensures
            committed_wf(self.committed()),
    ;

    /// Idempotent setup (connection, schema), called once at startup; a
    /// failure is fatal to startup. Never loses committed events.
    fn init(&mut self, service_namespace: &str) -> (r: Result<(), StoreError>)
        requires
            old(self).inv(),
        ensures
            final(self).inv(),
            final(self).committed() == old(self).committed(),
            final(self).reliable() == old(self).reliable(),
            old(self).reliable() ==> r.is_ok(),
    ;

    /// The events persisted for `aggregate_id`, ordered by sequence number
    /// ascending; an empty result signals that the aggregate does not yet
    /// exist.
    fn load_events(&self, aggregate_id: u128) -> (r: Result<Vec<Event<D>>, StoreError>)
        requires
            self.inv(),
        ensures
            r matches Ok(events) ==> events@ == log_of(self.committed(), aggregate_id),
            self.reliable() ==> r.is_ok(),
    ;

    /// Atomically persists one event per payload, all or nothing, assigning
    /// consecutive sequence numbers starting at the current version + 1, and
    /// returns the materialized events in the order supplied. The
    /// `expected_version` check happens atomically with the write: on
    /// mismatch nothing is persisted and the call reports `Conflict` with the
    /// version the caller expected and the version actually persisted.
    fn append_events(
        &mut self,
        aggregate_id: u128,
        payloads: Vec<D>,
        expected_version: Option<u64>,
    ) -> (r: Result<Vec<Event<D>>, AppendError>)
        requires
            old(self).inv(),
            payloads@.len() > 0,
            version_of(old(self).committed(), aggregate_id) + payloads@.len() <= u64::MAX,
        ensures
            final(self).inv(),
            final(self).reliable() == old(self).reliable(),
            match r {
                Ok(events) => {
                    &&& append_allowed(old(self).committed(), aggregate_id, expected_version)
                    &&& batch_wf(
                        events@,
                        aggregate_id,
                        version_of(old(self).committed(), aggregate_id),
                        payloads@,
                    )
                    &&& final(self).committed() == old(self).committed().insert(
                        aggregate_id,
                        log_of(old(self).committed(), aggregate_id) + events@,
                    )
                },
                Err(AppendError::Conflict { expected, actual }) => {
                    &&& expected_version == Option::<u64>::Some(expected)
                    &&& actual as int == version_of(old(self).committed(), aggregate_id)
                    &&& expected != actual
                    &&& final(self).committed() == old(self).committed()
                },
                Err(AppendError::Unavailable) => final(self).committed() == old(
                    self,
                ).committed(),
            },
            old(self).reliable() && append_allowed(
                old(self).committed(),
                aggregate_id,
                expected_version,
            ) ==> r.is_ok(),
            !append_allowed(old(self).committed(), aggregate_id, expected_version)
                ==> !r.is_ok(),
    ;
}

/// One identity's slot in the in-memory store.
struct AggregateLog<D> {
    aggregate_id: u128,
    events: Vec<Event<D>>,
}

/// The in-memory reference store: a list of per-identity logs (identities
/// unique), appends sequenced by exclusive access to the whole store. It
/// stamps `recorded_at` with a monotonic logical clock.
pub struct MemoryStore<D> {
    logs: Vec<AggregateLog<D>>,
    clock: u64,
}

/// The committed map an in-memory log list denotes.
spec fn logs_to_map<D>(logs: Seq<AggregateLog<D>>) -> Map<u128, Seq<Event<D>>>
    decreases logs.len(),
{
    if logs.len() == 0 {
        Map::empty()
    } else {
        logs_to_map(logs.drop_last()).insert(logs.last().aggregate_id, logs.last().events@)
    }
}

/// Identities are pairwise distinct and every log is well-formed.
spec fn logs_wf<D>(logs: Seq<AggregateLog<D>>) -> bool {
    &&& forall|i: int, j: int|
        0 <= i < j < logs.len() ==> (#[trigger] logs[i]).aggregate_id != (
        #[trigger] logs[j]).aggregate_id
    &&& forall|i: int|
        0 <= i < logs.len() ==> log_wf((#[trigger] logs[i]).events@, logs[i].aggregate_id)
}

/// A key is in the map exactly when some slot holds it.
proof fn lemma_logs_to_map_contains<D>(logs: Seq<AggregateLog<D>>, id: u128)
    ensures
        logs_to_map(logs).contains_key(id) <==> exists|i: int|
            0 <= i < logs.len() && (#[trigger] logs[i]).aggregate_id == id,
    decreases logs.len(),
{
    if logs.len() > 0 {
        lemma_logs_to_map_contains(logs.drop_last(), id);
        if logs.last().aggregate_id != id {
            assert(logs_to_map(logs).contains_key(id) <==> logs_to_map(
                logs.drop_last(),
            ).contains_key(id));
            if exists|i: int| 0 <= i < logs.len() && (#[trigger] logs[i]).aggregate_id == id {
                let i = choose|i: int|
                    0 <= i < logs.len() && (#[trigger] logs[i]).aggregate_id == id;
                assert(i < logs.len() - 1);
                assert(logs.drop_last()[i].aggregate_id == id);
            }
        }
    }
}

/// With unique identities, the slot holding `id` gives the map's value at `id`.
proof fn lemma_logs_to_map_index<D>(logs: Seq<AggregateLog<D>>, i: int)
    requires
        logs_wf(logs),
        0 <= i < logs.len(),
    ensures
        logs_to_map(logs).contains_key(logs[i].aggregate_id),
        logs_to_map(logs)[logs[i].aggregate_id] == logs[i].events@,
    decreases logs.len(),
{
    if i == logs.len() - 1 {
        lemma_logs_to_map_contains(logs, logs[i].aggregate_id);
    } else {
        assert(logs_wf(logs.drop_last()));
        lemma_logs_to_map_index(logs.drop_last(), i);
        assert(logs.drop_last()[i] == logs[i]);
        assert(logs[i].aggregate_id != logs.last().aggregate_id);
    }
}

/// Replacing slot `i` by a slot for the same identity updates the map at that
/// identity alone.
proof fn lemma_logs_to_map_update<D>(
    logs: Seq<AggregateLog<D>>,
    i: int,
    entry: AggregateLog<D>,
)
    requires
        logs_wf(logs),
        0 <= i < logs.len(),
        entry.aggregate_id == logs[i].aggregate_id,
    ensures
        logs_to_map(logs.update(i, entry)) == logs_to_map(logs).insert(
            entry.aggregate_id,
            entry.events@,
        ),
    decreases logs.len(),
{
    let updated = logs.update(i, entry);
    if i == logs.len() - 1 {
        assert(updated.drop_last() =~= logs.drop_last());
        assert(updated.last() == entry);
    } else {
        assert(logs_wf(logs.drop_last()));
        assert(updated.drop_last() =~= logs.drop_last().update(i, entry));
        lemma_logs_to_map_update(logs.drop_last(), i, entry);
        assert(updated.last() == logs.last());
        assert(entry.aggregate_id != logs.last().aggregate_id);
        assert(logs_to_map(logs.drop_last()).insert(entry.aggregate_id, entry.events@).insert(
            logs.last().aggregate_id,
            logs.last().events@,
        ) =~= logs_to_map(logs.drop_last()).insert(
            logs.last().aggregate_id,
            logs.last().events@,
        ).insert(entry.aggregate_id, entry.events@));
    }
}

/// Pushing a slot for a fresh identity inserts it into the map.
proof fn lemma_logs_to_map_push<D>(logs: Seq<AggregateLog<D>>, entry: AggregateLog<D>)
    ensures
        logs_to_map(logs.push(entry)) == logs_to_map(logs).insert(
            entry.aggregate_id,
            entry.events@,
        ),
{
    assert(logs.push(entry).drop_last() =~= logs);
    assert(logs.push(entry).last() == entry);
}

impl<D: EventData> MemoryStore<D> {
    /// An empty store: no aggregate exists yet.
    pub fn new() -> (r: MemoryStore<D>)
        ensures
            r.committed() == Map::<u128, Seq<Event<D>>>::empty(),
            r.inv(),
            r.reliable(),
    {
        MemoryStore { logs: Vec::new(), clock: 0 }
    }

    /// The slot holding `aggregate_id`, if the aggregate exists.
    fn find_log(&self, aggregate_id: u128) -> (r: Option<usize>)
        ensures
            match r {
                Some(i) => i < self.logs@.len() && self.logs@[i as int].aggregate_id
                    == aggregate_id,
                None => forall|i: int|
                    0 <= i < self.logs@.len() ==> (#[trigger] self.logs@[i]).aggregate_id
                        != aggregate_id,
            },
    {
        let mut i: usize = 0;
        while i < self.logs.len()
            invariant
                i <= self.logs@.len(),
                forall|j: int|
                    0 <= j < i ==> (#[trigger] self.logs@[j]).aggregate_id != aggregate_id,
            decreases self.logs@.len() - i,
        {
            if self.logs[i].aggregate_id == aggregate_id {
                return Some(i);
            }
            i += 1;
        }
        None
    }
}

impl<D: EventData> Store<D> for MemoryStore<D> {
    closed spec fn committed(&self) -> Map<u128, Seq<Event<D>>> {
        logs_to_map(self.logs@)
    }

    closed spec fn reliable(&self) -> bool {
        true
    }

    closed spec fn inv(&self) -> bool {
        logs_wf(self.logs@)
    }

    proof fn inv_implies_committed_wf(&self) {
        assert forall|id: u128| self.committed().contains_key(id) implies log_wf(
            #[trigger] self.committed()[id],
            id,
        ) by {
            lemma_logs_to_map_contains(self.logs@, id);
            let i = choose|i: int|
                0 <= i < self.logs@.len() && (#[trigger] self.logs@[i]).aggregate_id == id;
            lemma_logs_to_map_index(self.logs@, i);
        }
    }

    fn init(&mut self, service_namespace: &str) -> (r: Result<(), StoreError>) {
        Ok(())
    }

    fn load_events(&self, aggregate_id: u128) -> (r: Result<Vec<Event<D>>, StoreError>) {
        match self.find_log(aggregate_id) {
            Some(i) => {
                proof {
                    lemma_logs_to_map_index(self.logs@, i as int);
                }
                Ok(dup_events(&self.logs[i].events))
            },
            None => {
                proof {
                    lemma_logs_to_map_contains(self.logs@, aggregate_id);
                    assert(log_of(self.committed(), aggregate_id) =~= Seq::<Event<D>>::empty());
                }
                Ok(Vec::new())
            },
        }
    }

    fn append_events(
        &mut self,
        aggregate_id: u128,
        payloads: Vec<D>,
        expected_version: Option<u64>,
    ) -> (r: Result<Vec<Event<D>>, AppendError>) {
        let slot = self.find_log(aggregate_id);
        let current: u64 = match slot {
            Some(i) => {
                proof {
                    lemma_logs_to_map_index(self.logs@, i as int);
                }
                self.logs[i].events.len() as u64
            },
            None => {
                proof {
                    lemma_logs_to_map_contains(self.logs@, aggregate_id);
                }
                0
            },
        };
        proof {
            assert(current as int == version_of(old(self).committed(), aggregate_id));
        }
        match expected_version {
            Some(v) => {
                if v != current {
                    return Err(AppendError::Conflict { expected: v, actual: current });
                }
            },
            None => {},
        }
        let stamp = self.clock;
        if self.clock < u64::MAX {
            self.clock = self.clock + 1;
        }
        let mut batch: Vec<Event<D>> = Vec::new();
        let mut k: usize = 0;
        while k < payloads.len()
            invariant
                k <= payloads@.len(),
                current + payloads@.len() <= u64::MAX,
                batch_wf(batch@, aggregate_id, current as int, payloads@.take(k as int)),
                batch@.len() == k,
            decreases payloads@.len() - k,
        {
            batch.push(
                Event {
                    aggregate_id,
                    sequence_number: current + (k as u64) + 1,
                    recorded_at: stamp,
                    payload: payloads[k].dup(),
                },
            );
            proof {
                assert(payloads@.take(k + 1 as int) =~= payloads@.take(k as int).push(
                    payloads@[k as int],
                ));
            }
            k += 1;
        }
        proof {
            assert(payloads@.take(payloads@.len() as int) =~= payloads@);
        }
        let copies = dup_events(&batch);
        match slot {
            Some(i) => {
                proof {
                    lemma_logs_to_map_index(self.logs@, i as int);
                }
                let ghost old_logs = self.logs@;
                let mut events = dup_events(&self.logs[i].events);
                let mut c = copies;
                events.append(&mut c);
                let entry = AggregateLog { aggregate_id, events };
                self.logs.set(i, entry);
                proof {
                    lemma_logs_to_map_update(old_logs, i as int, self.logs@[i as int]);
                    assert(logs_wf(self.logs@));
                }
            },
            None => {
                let ghost old_logs = self.logs@;
                let entry = AggregateLog { aggregate_id, events: copies };
                self.logs.push(entry);
                proof {
                    lemma_logs_to_map_push(old_logs, self.logs@.last());
                    assert(log_of(old(self).committed(), aggregate_id) =~= Seq::<
                        Event<D>,
                    >::empty());
                    assert(log_of(old(self).committed(), aggregate_id) + batch@ =~= batch@);
                    assert(logs_wf(self.logs@));
                }
            },
        }
        Ok(batch)
    }
}

} // verus!
