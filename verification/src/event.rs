//! The event record and the payload capability.

use vstd::prelude::*;

verus! {

/// An immutable fact appended to one aggregate's history.
///
/// `sequence_number` is assigned by the store at append time: for a given
/// aggregate the persisted numbers form the contiguous range `1..=N`, where
/// `N` is the aggregate's current version. `recorded_at` is a timestamp the
/// store stamps on the batch when it commits it.
#[derive(Debug)]
pub struct Event<D> {
    pub aggregate_id: u128,
    pub sequence_number: u64,
    pub recorded_at: u64,
    pub payload: D,
}

/// Payloads are application-defined values. The engine keeps one copy of every
/// event in the durable log and hands further copies to the caller and to the
/// notification channel, so a payload type must provide an equality-preserving
/// duplicate.
pub trait EventData: Sized {
    fn dup(&self) -> (r: Self)
        ensures
            r == *self,
    ;
}

impl EventData for u64 {
    fn dup(&self) -> (r: u64)
        ensures
            r == *self,
    {
        *self
    }
}

impl<D: EventData> Event<D> {
    /// An equality-preserving copy of the whole record.
    pub fn dup(&self) -> (r: Event<D>)
        ensures
            r == *self,
    {
        Event {
            aggregate_id: self.aggregate_id,
            sequence_number: self.sequence_number,
            recorded_at: self.recorded_at,
            payload: self.payload.dup(),
        }
    }
}

/// An equality-preserving copy of an event batch.
pub fn dup_events<D: EventData>(events: &Vec<Event<D>>) -> (r: Vec<Event<D>>)
    ensures
        r@ == events@,
{
    let mut r: Vec<Event<D>> = Vec::new();
    let mut i: usize = 0;
    while i < events.len()
        invariant
            i <= events.len(),
            r@ == events@.take(i as int),
        decreases events.len() - i,
    {
        r.push(events[i].dup());
        proof {
            assert(events@.take(i + 1 as int) =~= events@.take(i as int).push(events@[i as int]));
        }
        i += 1;
    }
    proof {
        assert(r@ =~= events@);
    }
    r
}

} // verus!
