//! The notification channel: a decoupled publish/subscribe path that announces
//! newly committed event batches to listeners. Durability precedes
//! notification: a batch is announced only after its append returned success,
//! and a failed announcement never rolls the append back.

use vstd::prelude::*;
use crate::event::{Event, EventData, dup_events};
use crate::store::log_of;

verus! {

/// A backend failure while initializing or announcing.
#[derive(Debug)]
pub enum NotificationError {
    Unavailable,
}

/// The pluggable announcing capability: an in-process channel by default, an
/// external broker if substituted.
pub trait Sender<D: EventData>: Sized {
    /// Every batch announced so far, in the order announced.
    spec fn published(&self) -> Seq<Seq<Event<D>>>;

    /// Whether the backend can currently fail with `Unavailable`. The
    /// in-process sender never does.
    spec fn reliable(&self) -> bool;

    /// Backend well-formedness, established by the constructor and preserved
    /// by every operation.
    spec fn inv(&self) -> bool;

    /// Idempotent setup, called once at startup; a failure is fatal to
    /// startup.
    fn init(&mut self, service_namespace: &str) -> (r: Result<(), NotificationError>)
        requires
            old(self).inv(),
        ensures
            final(self).inv(),
            final(self).published() == old(self).published(),
            final(self).reliable() == old(self).reliable(),
            old(self).reliable() ==> r.is_ok(),
    ;

    /// Announces one committed batch to every listener. On failure nothing is
    /// announced, and the caller reports the failure without undoing the
    /// already-durable append.
    fn publish(&mut self, events: &Vec<Event<D>>) -> (r: Result<(), NotificationError>)
        requires
            old(self).inv(),
        ensures
            final(self).inv(),
            final(self).reliable() == old(self).reliable(),
            r.is_ok() ==> final(self).published() == old(self).published().push(events@),
            r.is_err() ==> final(self).published() == old(self).published(),
            old(self).reliable() ==> r.is_ok(),
    ;
}

/// The pluggable receiving capability. How batches are consumed is the
/// backend's own affair — the in-process listener pulls from its paired
/// sender's announcement log, lazily and restartably.
pub trait Listener: Sized {
    /// Backend well-formedness, established by the constructor.
    spec fn inv(&self) -> bool;

    /// Whether setup can currently fail. The in-process listener never fails.
    spec fn reliable(&self) -> bool;

    /// Idempotent setup, called once at startup; a failure is fatal to
    /// startup.
    fn init(&mut self, service_namespace: &str) -> (r: Result<(), NotificationError>)
        requires
            old(self).inv(),
        ensures
            final(self).inv(),
            final(self).reliable() == old(self).reliable(),
            old(self).reliable() ==> r.is_ok(),
    ;
}

/// Every announced batch is already durable under the committed map `m`: each
/// of its events is stored for its aggregate at the position its sequence
/// number names.
pub open spec fn published_durable<D>(
    published: Seq<Seq<Event<D>>>,
    m: Map<u128, Seq<Event<D>>>,
) -> bool {
    forall|i: int, j: int|
        0 <= i < published.len() && 0 <= j < published[i].len() ==> {
            let e = #[trigger] published[i][j];
            &&& 1 <= e.sequence_number
            &&& e.sequence_number as int <= log_of(m, e.aggregate_id).len()
            &&& log_of(m, e.aggregate_id)[e.sequence_number as int - 1] == e
        }
}

/// The in-process sender: it keeps the announced batches in order, and its
/// paired listener reads them from it.
pub struct MemorySender<D> {
    batches: Vec<Vec<Event<D>>>,
}

impl<D: EventData> MemorySender<D> {
    /// A sender that has announced nothing yet.
    pub fn new() -> (r: MemorySender<D>)
        ensures
            r.published() == Seq::<Seq<Event<D>>>::empty(),
            r.inv(),
            r.reliable(),
    {
        let r = MemorySender { batches: Vec::new() };
        proof {
            assert(r.published() =~= Seq::<Seq<Event<D>>>::empty());
        }
        r
    }

    /// How many batches have been announced so far.
    pub fn publication_count(&self) -> (n: usize)
        ensures
            n == self.published().len(),
    {
        self.batches.len()
    }
}

impl<D: EventData> Sender<D> for MemorySender<D> {
    closed spec fn published(&self) -> Seq<Seq<Event<D>>> {
        self.batches@.map_values(|batch: Vec<Event<D>>| batch@)
    }

    closed spec fn reliable(&self) -> bool {
        true
    }

    closed spec fn inv(&self) -> bool {
        true
    }

    fn init(&mut self, service_namespace: &str) -> (r: Result<(), NotificationError>) {
        Ok(())
    }

    fn publish(&mut self, events: &Vec<Event<D>>) -> (r: Result<(), NotificationError>) {
        let copy = dup_events(events);
        self.batches.push(copy);
        proof {
            assert(self.published() =~= old(self).published().push(events@));
        }
        Ok(())
    }
}

/// The in-process listener: a restartable cursor over its paired sender's
/// announcement log.
pub struct MemoryListener {
    cursor: usize,
}

impl MemoryListener {
    /// Where the cursor stands: the next announced batch it will yield.
    pub closed spec fn cursor(&self) -> int {
        self.cursor as int
    }

    /// A listener that will yield announced batches from the first on.
    pub fn new() -> (r: MemoryListener)
        ensures
            r.cursor() == 0,
            r.inv(),
            r.reliable(),
    {
        MemoryListener { cursor: 0 }
    }

    /// The next batch the paired sender has announced, if any: batches arrive
    /// in the order they were announced, each exactly once per cursor pass.
    pub fn poll<D: EventData>(&mut self, source: &MemorySender<D>) -> (r: Option<
        Vec<Event<D>>,
    >)
        ensures
            match r {
                Some(batch) => {
                    &&& old(self).cursor() < source.published().len()
                    &&& batch@ == source.published()[old(self).cursor()]
                    &&& final(self).cursor() == old(self).cursor() + 1
                },
                None => {
                    &&& old(self).cursor() >= source.published().len()
                    &&& final(self).cursor() == old(self).cursor()
                },
            },
    {
        if self.cursor < source.batches.len() {
            let batch = dup_events(&source.batches[self.cursor]);
            self.cursor = self.cursor + 1;
            Some(batch)
        } else {
            None
        }
    }

    /// Restarts the sequence: the next poll yields the first announced batch
    /// again.
    pub fn reset(&mut self)
        ensures
            final(self).cursor() == 0,
    {
        self.cursor = 0;
    }
}

impl Listener for MemoryListener {
    closed spec fn inv(&self) -> bool {
        true
    }

    closed spec fn reliable(&self) -> bool {
        true
    }

    fn init(&mut self, service_namespace: &str) -> (r: Result<(), NotificationError>) {
        Ok(())
    }
}

/// An in-process sender/listener pair: what the one announces, the other
/// yields, in order.
pub fn create_memory_notification_pair<D: EventData>() -> (r: (
    MemorySender<D>,
    MemoryListener,
))
    ensures
        r.0.published() == Seq::<Seq<Event<D>>>::empty(),
        r.0.inv(),
        r.0.reliable(),
        r.1.cursor() == 0,
        r.1.inv(),
        r.1.reliable(),
{
    (MemorySender::new(), MemoryListener::new())
}

} // verus!
