//! Aggregates and state reconstruction: the pure fold from an ordered event
//! sequence to a typed state snapshot.

use vstd::prelude::*;
use crate::event::Event;
use crate::store::log_of;

verus! {

/// One aggregate's transient, in-memory representation, built immediately
/// before a command is processed and discarded after: its identity, the
/// highest sequence number persisted for it (0 if none), and the state
/// derived from its event history.
pub struct Aggregate<S> {
    pub aggregate_id: u128,
    pub version: u64,
    pub state: S,
}

/// The pluggable projection: a pure fold step over an initial empty value.
/// It must be total — an inapplicable event is a no-op step, never a failure —
/// and must consult nothing besides the state and the event, so that
/// reconstruction is a deterministic function of history alone. Both demands
/// are enforced here by tying the executable step to a mathematical one.
pub trait StateBuilder<S, D>: Sized {
    /// The defined empty value of the state, before any event applies.
    spec fn spec_init(&self) -> S;

    /// What one fold step yields.
    spec fn spec_apply(&self, state: S, event: Event<D>) -> S;

    fn init_state(&self) -> (r: S)
        ensures
            r == self.spec_init(),
    ;

    fn apply(&self, state: S, event: &Event<D>) -> (r: S)
        ensures
            r == self.spec_apply(state, *event),
    ;
}

/// The state an event sequence denotes: `init` folded left-to-right, one
/// event at a time.
pub open spec fn project_spec<S, D, B: StateBuilder<S, D>>(
    builder: B,
    init: S,
    events: Seq<Event<D>>,
) -> S
    decreases events.len(),
{
    if events.len() == 0 {
        init
    } else {
        builder.spec_apply(project_spec(builder, init, events.drop_last()), events.last())
    }
}

/// The aggregate one identity currently denotes under a committed map: its
/// persisted version and the projection of its stored log.
pub open spec fn aggregate_of<S, D, B: StateBuilder<S, D>>(
    builder: B,
    m: Map<u128, Seq<Event<D>>>,
    aggregate_id: u128,
) -> Aggregate<S> {
    Aggregate {
        aggregate_id,
        version: log_of(m, aggregate_id).len() as u64,
        state: project_spec(builder, builder.spec_init(), log_of(m, aggregate_id)),
    }
}

/// Rebuilds state from an ordered event sequence. The result is pinned to
/// `project_spec`, a function of the builder and the events alone: projecting
/// the same sequence twice always yields equal states.
pub fn project<S, D, B: StateBuilder<S, D>>(builder: &B, events: &Vec<Event<D>>) -> (r: S)
    ensures
        r == project_spec(*builder, builder.spec_init(), events@),
{
    let mut state = builder.init_state();
    let mut i: usize = 0;
    while i < events.len()
        invariant
            i <= events@.len(),
            state == project_spec(*builder, builder.spec_init(), events@.take(i as int)),
        decreases events@.len() - i,
    {
        state = builder.apply(state, &events[i]);
        proof {
            assert(events@.take(i + 1 as int).drop_last() =~= events@.take(i as int));
            assert(events@.take(i + 1 as int).last() == events@[i as int]);
        }
        i += 1;
    }
    proof {
        assert(events@.take(events@.len() as int) =~= events@);
    }
    state
}

/// Projecting a prefix and then continuing with the remaining suffix yields
/// the same state as projecting the whole sequence at once.
pub proof fn lemma_projection_split<S, D, B: StateBuilder<S, D>>(
    builder: B,
    init: S,
    prefix: Seq<Event<D>>,
    suffix: Seq<Event<D>>,
)
    ensures
        project_spec(builder, init, prefix + suffix) == project_spec(
            builder,
            project_spec(builder, init, prefix),
            suffix,
        ),
    decreases suffix.len(),
{
    if suffix.len() == 0 {
        assert(prefix + suffix =~= prefix);
    } else {
        lemma_projection_split(builder, init, prefix, suffix.drop_last());
        assert((prefix + suffix).drop_last() =~= prefix + suffix.drop_last());
        assert((prefix + suffix).last() == suffix.last());
    }
}

/// The default projection: it carries no state, so every event is a no-op
/// fold step over the unit value.
pub struct NoopBuilder;

impl<D> StateBuilder<(), D> for NoopBuilder {
    open spec fn spec_init(&self) -> () {
        ()
    }

    open spec fn spec_apply(&self, state: (), event: Event<D>) -> () {
        ()
    }

    fn init_state(&self) -> (r: ()) {
        ()
    }

    fn apply(&self, state: (), event: &Event<D>) -> (r: ()) {
        ()
    }
}

/// The default builder value, for engines whose commands need no prior state.
pub fn noop_builder() -> (r: NoopBuilder) {
    NoopBuilder
}

} // verus!
