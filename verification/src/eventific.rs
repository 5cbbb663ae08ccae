//! The engine and its command pipeline: resolve the target identity, load and
//! project history for existing aggregates, run the domain validation, append
//! the derived events under the optimistic-concurrency guard, announce the
//! committed batch, and record metrics on every path.

use vstd::prelude::*;
use crate::aggregate::{Aggregate, StateBuilder, aggregate_of, project};
use crate::event::{Event, EventData};
use crate::identity::{uuid_of, parse_aggregate_id};
use crate::metrics::{Metrics, bump, bumped, zeroed};
use crate::notification::{Sender, MemorySender, MemoryListener, published_durable};
use crate::store::{
    Store, StoreError, AppendError, log_of, version_of, append_allowed, batch_wf,
};

verus! {

/// Why startup aborted: the first backend that failed to come up.
#[derive(Debug)]
pub enum EventificError {
    StoreInitError(StoreError),
    SendNotificationInitError(crate::notification::NotificationError),
}

/// The pipeline's typed failures, programmatically distinguishable so a
/// transport can map each to its own wire-level status.
#[derive(Debug)]
pub enum CommandError {
    /// The supplied identity text is not a well-formed identifier.
    InvalidIdentity,
    /// The domain callback rejected the request, with its cause.
    ValidationFailed(String),
    /// The optimistic-concurrency precondition failed; the caller decides
    /// whether to retry with fresh state — the pipeline never retries.
    Conflict { expected: u64, actual: u64 },
    /// The store could not be read or written.
    StoreUnavailable,
}

/// The domain half of a creation command: it validates the request it was
/// built from and derives the events to record. No prior state is consulted,
/// since the aggregate must not yet exist. Validation is pure: acceptance and
/// the derived events are functions of the request alone.
pub trait CreateHandler<D>: Sized {
    /// Whether the request is acceptable.
    spec fn accepts(&self) -> bool;

    /// The events an acceptable request derives.
    spec fn events(&self) -> Seq<D>;

    fn derive_events(&self) -> (r: Result<Vec<D>, String>)
        ensures
            r.is_ok() <==> self.accepts(),
            r matches Ok(v) ==> v@ == self.events(),
    ;
}

/// The domain half of a mutation command: given the current reconstructed
/// aggregate it validates the request and derives the new events. An absent
/// aggregate presents itself as the empty state at version 0; the handler
/// decides whether that is acceptable. Validation is pure.
pub trait EventHandler<S, D>: Sized {
    /// Whether the request is acceptable against this current aggregate.
    spec fn accepts(&self, current: Aggregate<S>) -> bool;

    /// The events an acceptable request derives from this current aggregate.
    spec fn events(&self, current: Aggregate<S>) -> Seq<D>;

    fn handle(&self, current: &Aggregate<S>) -> (r: Result<Vec<D>, String>)
        ensures
            r.is_ok() <==> self.accepts(*current),
            r matches Ok(v) ==> v@ == self.events(*current),
    ;
}

/// The engine's standing well-formedness: both backends are well-formed and
/// nothing has ever been announced that is not already durable.
pub open spec fn engine_inv<D: EventData, St: Store<D>, Se: Sender<D>>(
    store: St,
    sender: Se,
) -> bool {
    &&& store.inv()
    &&& sender.inv()
    &&& published_durable(sender.published(), store.committed())
}

/// The expected-version guard a creation uses: strict creation demands that
/// the aggregate have no events yet; otherwise the append is unconditional.
pub open spec fn creation_guard(must_not_exist: bool) -> Option<u64> {
    if must_not_exist {
        Option::Some(0u64)
    } else {
        Option::None
    }
}

/// Appending a well-numbered batch on top of one log keeps every already
/// announced event durable, and makes the new batch durable too.
proof fn lemma_durable_after_append<D>(
    published: Seq<Seq<Event<D>>>,
    m: Map<u128, Seq<Event<D>>>,
    m2: Map<u128, Seq<Event<D>>>,
    aggregate_id: u128,
    batch: Seq<Event<D>>,
    payloads: Seq<D>,
)
    requires
        published_durable(published, m),
        batch_wf(batch, aggregate_id, version_of(m, aggregate_id), payloads),
        m2 == m.insert(aggregate_id, log_of(m, aggregate_id) + batch),
    ensures
        published_durable(published, m2),
        published_durable(published.push(batch), m2),
{
    assert forall|i: int, j: int|
        0 <= i < published.len() && 0 <= j < published[i].len() implies {
        let e = #[trigger] published[i][j];
        &&& 1 <= e.sequence_number
        &&& e.sequence_number as int <= log_of(m2, e.aggregate_id).len()
        &&& log_of(m2, e.aggregate_id)[e.sequence_number as int - 1] == e
    } by {
        let e = published[i][j];
        if e.aggregate_id == aggregate_id {
            assert(log_of(m2, aggregate_id) == log_of(m, aggregate_id) + batch);
            assert(log_of(m2, e.aggregate_id)[e.sequence_number as int - 1] == log_of(
                m,
                e.aggregate_id,
            )[e.sequence_number as int - 1]);
        }
    }
    let p2 = published.push(batch);
    assert forall|i: int, j: int| 0 <= i < p2.len() && 0 <= j < p2[i].len() implies {
        let e = #[trigger] p2[i][j];
        &&& 1 <= e.sequence_number
        &&& e.sequence_number as int <= log_of(m2, e.aggregate_id).len()
        &&& log_of(m2, e.aggregate_id)[e.sequence_number as int - 1] == e
    } by {
        if i < published.len() {
            assert(p2[i] == published[i]);
            assert(published_durable(published, m2));
            assert({
                let e = published[i][j];
                &&& 1 <= e.sequence_number
                &&& e.sequence_number as int <= log_of(m2, e.aggregate_id).len()
                &&& log_of(m2, e.aggregate_id)[e.sequence_number as int - 1] == e
            });
        } else {
            assert(p2[i] == batch);
            let e = batch[j];
            assert(e.aggregate_id == aggregate_id);
            assert(e.sequence_number as int == version_of(m, aggregate_id) + j + 1);
            assert(log_of(m2, aggregate_id) == log_of(m, aggregate_id) + batch);
            assert(log_of(m2, aggregate_id)[e.sequence_number as int - 1] == batch[j]);
        }
    }
}

/// The running engine: one store, one projection, one announcement channel,
/// one listener handle, and the injected metrics recorder.
pub struct Eventific<St, B, Se, L> {
    pub store: St,
    pub state_builder: B,
    pub sender: Se,
    pub listener: L,
    pub service_name: String,
    pub metrics: Metrics,
}

impl<St, B, Se, L> Eventific<St, B, Se, L> {
    /// Assembles a started engine from already-initialized collaborators.
    pub fn create<D: EventData>(
        store: St,
        state_builder: B,
        sender: Se,
        listener: L,
        service_name: String,
    ) -> (r: Eventific<St, B, Se, L>) where St: Store<D>, Se: Sender<D>
        requires
            engine_inv(store, sender),
        ensures
            r.store == store,
            r.state_builder == state_builder,
            r.sender == sender,
            r.listener == listener,
            r.service_name == service_name,
            zeroed(r.metrics),
    {
        Eventific { store, state_builder, sender, listener, service_name, metrics: Metrics::new() }
    }

    /// The shared tail of every writing command: append the derived payloads
    /// under the guard, and only after the append has returned success,
    /// announce the batch. An announcement failure is recorded and does not
    /// fail the command; an append failure means nothing is announced.
    fn append_and_publish<D: EventData>(
        &mut self,
        aggregate_id: u128,
        payloads: Vec<D>,
        expected_version: Option<u64>,
    ) -> (r: Result<Vec<Event<D>>, CommandError>) where St: Store<D>, Se: Sender<D>
        requires
            engine_inv(old(self).store, old(self).sender),
            payloads@.len() > 0,
            version_of(old(self).store.committed(), aggregate_id) + payloads@.len()
                <= u64::MAX,
        ensures
            engine_inv(final(self).store, final(self).sender),
            final(self).state_builder == old(self).state_builder,
            final(self).listener == old(self).listener,
            final(self).service_name == old(self).service_name,
            final(self).store.reliable() == old(self).store.reliable(),
            final(self).sender.reliable() == old(self).sender.reliable(),
            final(self).metrics.commands_handled == old(self).metrics.commands_handled,
            final(self).metrics.invalid_identity_errors == old(
                self,
            ).metrics.invalid_identity_errors,
            final(self).metrics.validation_errors == old(self).metrics.validation_errors,
            match r {
                Ok(events) => {
                    &&& append_allowed(
                        old(self).store.committed(),
                        aggregate_id,
                        expected_version,
                    )
                    &&& batch_wf(
                        events@,
                        aggregate_id,
                        version_of(old(self).store.committed(), aggregate_id),
                        payloads@,
                    )
                    &&& final(self).store.committed() == old(self).store.committed().insert(
                        aggregate_id,
                        log_of(old(self).store.committed(), aggregate_id) + events@,
                    )
                    &&& (final(self).sender.published() == old(self).sender.published().push(
                        events@,
                    ) && final(self).metrics.notification_failures == old(
                        self,
                    ).metrics.notification_failures) || (final(self).sender.published() == old(
                        self,
                    ).sender.published() && final(self).metrics.notification_failures == bumped(
                        old(self).metrics.notification_failures,
                    ))
                    &&& old(self).sender.reliable() ==> final(self).sender.published() == old(
                        self,
                    ).sender.published().push(events@)
                },
                Err(CommandError::Conflict { expected, actual }) => {
                    &&& expected_version == Option::<u64>::Some(expected)
                    &&& actual as int == version_of(old(self).store.committed(), aggregate_id)
                    &&& expected != actual
                    &&& final(self).store.committed() == old(self).store.committed()
                    &&& final(self).sender.published() == old(self).sender.published()
                },
                Err(CommandError::StoreUnavailable) => {
                    &&& final(self).store.committed() == old(self).store.committed()
                    &&& final(self).sender.published() == old(self).sender.published()
                },
                Err(CommandError::InvalidIdentity) => false,
                Err(CommandError::ValidationFailed(_)) => false,
            },
            r.is_err() ==> final(self).metrics.notification_failures == old(
                self,
            ).metrics.notification_failures,
            final(self).metrics.conflict_errors == (match r {
                Err(CommandError::Conflict { .. }) => bumped(old(self).metrics.conflict_errors),
                _ => old(self).metrics.conflict_errors,
            }),
            final(self).metrics.store_errors == (match r {
                Err(CommandError::StoreUnavailable) => bumped(old(self).metrics.store_errors),
                _ => old(self).metrics.store_errors,
            }),
            old(self).store.reliable() && append_allowed(
                old(self).store.committed(),
                aggregate_id,
                expected_version,
            ) ==> r.is_ok(),
            !append_allowed(old(self).store.committed(), aggregate_id, expected_version)
                ==> r matches Err(CommandError::Conflict { .. }) || r matches Err(
                CommandError::StoreUnavailable,
            ),
    {
        let ghost m0 = self.store.committed();
        let ghost p0 = self.sender.published();
        match self.store.append_events(aggregate_id, payloads, expected_version) {
            Ok(events) => {
                proof {
                    lemma_durable_after_append(
                        p0,
                        m0,
                        self.store.committed(),
                        aggregate_id,
                        events@,
                        payloads@,
                    );
                }
                match self.sender.publish(&events) {
                    Ok(()) => {},
                    Err(_) => {
                        self.metrics.notification_failures = bump(
                            self.metrics.notification_failures,
                        );
                    },
                }
                Ok(events)
            },
            Err(AppendError::Conflict { expected, actual }) => {
                self.metrics.conflict_errors = bump(self.metrics.conflict_errors);
                Err(CommandError::Conflict { expected, actual })
            },
            Err(AppendError::Unavailable) => {
                self.metrics.store_errors = bump(self.metrics.store_errors);
                Err(CommandError::StoreUnavailable)
            },
        }
    }

    /// The create-new-aggregate path for an already-resolved identity: appends
    /// the supplied payloads with an unconditional guard, or — under strict
    /// creation semantics — with the guard that the aggregate must not yet
    /// exist; announces the batch only after the append succeeded.
    pub fn create_aggregate<D: EventData>(
        &mut self,
        aggregate_id: u128,
        payloads: Vec<D>,
        must_not_exist: bool,
    ) -> (r: Result<Vec<Event<D>>, CommandError>) where St: Store<D>, Se: Sender<D>
        requires
            engine_inv(old(self).store, old(self).sender),
            payloads@.len() > 0,
            version_of(old(self).store.committed(), aggregate_id) + payloads@.len()
                <= u64::MAX,
        ensures
            engine_inv(final(self).store, final(self).sender),
            final(self).state_builder == old(self).state_builder,
            final(self).listener == old(self).listener,
            final(self).service_name == old(self).service_name,
            final(self).store.reliable() == old(self).store.reliable(),
            final(self).sender.reliable() == old(self).sender.reliable(),
            final(self).metrics.commands_handled == bumped(old(self).metrics.commands_handled),
            final(self).metrics.invalid_identity_errors == old(
                self,
            ).metrics.invalid_identity_errors,
            final(self).metrics.validation_errors == old(self).metrics.validation_errors,
            match r {
                Ok(events) => {
                    &&& append_allowed(
                        old(self).store.committed(),
                        aggregate_id,
                        creation_guard(must_not_exist),
                    )
                    &&& batch_wf(
                        events@,
                        aggregate_id,
                        version_of(old(self).store.committed(), aggregate_id),
                        payloads@,
                    )
                    &&& final(self).store.committed() == old(self).store.committed().insert(
                        aggregate_id,
                        log_of(old(self).store.committed(), aggregate_id) + events@,
                    )
                    &&& (final(self).sender.published() == old(self).sender.published().push(
                        events@,
                    ) || final(self).sender.published() == old(self).sender.published())
                    &&& old(self).sender.reliable() ==> final(self).sender.published() == old(
                        self,
                    ).sender.published().push(events@)
                },
                Err(CommandError::Conflict { expected, actual }) => {
                    &&& creation_guard(must_not_exist) == Option::<u64>::Some(expected)
                    &&& actual as int == version_of(old(self).store.committed(), aggregate_id)
                    &&& expected != actual
                    &&& final(self).store.committed() == old(self).store.committed()
                    &&& final(self).sender.published() == old(self).sender.published()
                },
                Err(CommandError::StoreUnavailable) => {
                    &&& final(self).store.committed() == old(self).store.committed()
                    &&& final(self).sender.published() == old(self).sender.published()
                },
                Err(CommandError::InvalidIdentity) => false,
                Err(CommandError::ValidationFailed(_)) => false,
            },
            old(self).store.reliable() && append_allowed(
                old(self).store.committed(),
                aggregate_id,
                creation_guard(must_not_exist),
            ) ==> r.is_ok(),
            !append_allowed(
                old(self).store.committed(),
                aggregate_id,
                creation_guard(must_not_exist),
            ) ==> !r.is_ok(),
    {
        self.metrics.commands_handled = bump(self.metrics.commands_handled);
        let expected_version = if must_not_exist {
            Some(0u64)
        } else {
            None
        };
        self.append_and_publish(aggregate_id, payloads, expected_version)
    }

    /// The shared body of the mutate-existing-aggregate path: load the stored
    /// history, project it to the current aggregate, let the handler validate
    /// and derive new events, and append them guarded by the version that was
    /// read — the optimistic-concurrency check that prevents lost updates.
    /// Deriving no events is a successful command that records nothing.
    fn handle_existing<S, D: EventData, H: EventHandler<S, D>>(
        &mut self,
        aggregate_id: u128,
        handler: &H,
    ) -> (r: Result<Vec<Event<D>>, CommandError>) where
        St: Store<D>,
        Se: Sender<D>,
        B: StateBuilder<S, D>,

        requires
            engine_inv(old(self).store, old(self).sender),
            ({
                let agg = aggregate_of(
                    old(self).state_builder,
                    old(self).store.committed(),
                    aggregate_id,
                );
                handler.accepts(agg) ==> version_of(old(self).store.committed(), aggregate_id)
                    + handler.events(agg).len() <= u64::MAX
            }),
        ensures
            engine_inv(final(self).store, final(self).sender),
            final(self).state_builder == old(self).state_builder,
            final(self).listener == old(self).listener,
            final(self).service_name == old(self).service_name,
            final(self).store.reliable() == old(self).store.reliable(),
            final(self).sender.reliable() == old(self).sender.reliable(),
            final(self).metrics.commands_handled == old(self).metrics.commands_handled,
            final(self).metrics.invalid_identity_errors == old(
                self,
            ).metrics.invalid_identity_errors,
            final(self).metrics.conflict_errors == old(self).metrics.conflict_errors,
            ({
                let agg = aggregate_of(
                    old(self).state_builder,
                    old(self).store.committed(),
                    aggregate_id,
                );
                match r {
                    Ok(events) => {
                        &&& handler.accepts(agg)
                        &&& batch_wf(
                            events@,
                            aggregate_id,
                            version_of(old(self).store.committed(), aggregate_id),
                            handler.events(agg),
                        )
                        &&& if handler.events(agg).len() == 0 {
                            &&& final(self).store.committed() == old(self).store.committed()
                            &&& final(self).sender.published() == old(self).sender.published()
                        } else {
                            &&& final(self).store.committed() == old(
                                self,
                            ).store.committed().insert(
                                aggregate_id,
                                log_of(old(self).store.committed(), aggregate_id) + events@,
                            )
                            &&& (final(self).sender.published() == old(
                                self,
                            ).sender.published().push(events@) || final(self).sender.published()
                                == old(self).sender.published())
                            &&& old(self).sender.reliable() ==> final(self).sender.published()
                                == old(self).sender.published().push(events@)
                        }
                    },
                    Err(CommandError::ValidationFailed(_)) => {
                        &&& !handler.accepts(agg)
                        &&& final(self).store.committed() == old(self).store.committed()
                        &&& final(self).sender.published() == old(self).sender.published()
                    },
                    Err(CommandError::StoreUnavailable) => {
                        &&& final(self).store.committed() == old(self).store.committed()
                        &&& final(self).sender.published() == old(self).sender.published()
                    },
                    Err(CommandError::Conflict { .. }) => false,
                    Err(CommandError::InvalidIdentity) => false,
                }
            }),
            old(self).store.reliable() ==> (r.is_ok() <==> handler.accepts(
                aggregate_of(
                    old(self).state_builder,
                    old(self).store.committed(),
                    aggregate_id,
                ),
            )),
            final(self).metrics.validation_errors == (match r {
                Err(CommandError::ValidationFailed(_)) => bumped(
                    old(self).metrics.validation_errors,
                ),
                _ => old(self).metrics.validation_errors,
            }),
            final(self).metrics.store_errors == (match r {
                Err(CommandError::StoreUnavailable) => bumped(old(self).metrics.store_errors),
                _ => old(self).metrics.store_errors,
            }),
            r.is_err() ==> final(self).metrics.notification_failures == old(
                self,
            ).metrics.notification_failures,
    {
        let ghost m0 = self.store.committed();
        let ghost agg_spec = aggregate_of(self.state_builder, m0, aggregate_id);
        proof {
            self.store.inv_implies_committed_wf();
            if log_of(m0, aggregate_id).len() > 0 {
                let log = log_of(m0, aggregate_id);
                assert(log[log.len() - 1].sequence_number as int == log.len() as int);
            }
        }
        let loaded = match self.store.load_events(aggregate_id) {
            Ok(evs) => evs,
            Err(StoreError::Unavailable) => {
                self.metrics.store_errors = bump(self.metrics.store_errors);
                return Err(CommandError::StoreUnavailable);
            },
        };
        let version: u64 = loaded.len() as u64;
        let state = self.project_current(&loaded);
        let current = Aggregate { aggregate_id, version, state };
        proof {
            assert(current == agg_spec);
        }
        match handler.handle(&current) {
            Err(cause) => {
                self.metrics.validation_errors = bump(self.metrics.validation_errors);
                Err(CommandError::ValidationFailed(cause))
            },
            Ok(payloads) => {
                if payloads.len() == 0 {
                    proof {
                        assert(batch_wf(
                            Seq::<Event<D>>::empty(),
                            aggregate_id,
                            version_of(m0, aggregate_id),
                            handler.events(agg_spec),
                        ));
                    }
                    Ok(Vec::new())
                } else {
                    self.append_and_publish(aggregate_id, payloads, Some(version))
                }
            },
        }
    }

    /// The mutate-existing-aggregate path for an already-resolved identity:
    /// one handled command around `handle_existing`.
    pub fn add_events_to_aggregate<S, D: EventData, H: EventHandler<S, D>>(
        &mut self,
        aggregate_id: u128,
        handler: &H,
    ) -> (r: Result<Vec<Event<D>>, CommandError>) where
        St: Store<D>,
        Se: Sender<D>,
        B: StateBuilder<S, D>,

        requires
            engine_inv(old(self).store, old(self).sender),
            ({
                let agg = aggregate_of(
                    old(self).state_builder,
                    old(self).store.committed(),
                    aggregate_id,
                );
                handler.accepts(agg) ==> version_of(old(self).store.committed(), aggregate_id)
                    + handler.events(agg).len() <= u64::MAX
            }),
        ensures
            engine_inv(final(self).store, final(self).sender),
            final(self).state_builder == old(self).state_builder,
            final(self).listener == old(self).listener,
            final(self).service_name == old(self).service_name,
            final(self).store.reliable() == old(self).store.reliable(),
            final(self).sender.reliable() == old(self).sender.reliable(),
            final(self).metrics.commands_handled == bumped(old(self).metrics.commands_handled),
            final(self).metrics.invalid_identity_errors == old(
                self,
            ).metrics.invalid_identity_errors,
            final(self).metrics.conflict_errors == old(self).metrics.conflict_errors,
            ({
                let agg = aggregate_of(
                    old(self).state_builder,
                    old(self).store.committed(),
                    aggregate_id,
                );
                match r {
                    Ok(events) => {
                        &&& handler.accepts(agg)
                        &&& batch_wf(
                            events@,
                            aggregate_id,
                            version_of(old(self).store.committed(), aggregate_id),
                            handler.events(agg),
                        )
                        &&& if handler.events(agg).len() == 0 {
                            &&& final(self).store.committed() == old(self).store.committed()
                            &&& final(self).sender.published() == old(self).sender.published()
                        } else {
                            &&& final(self).store.committed() == old(
                                self,
                            ).store.committed().insert(
                                aggregate_id,
                                log_of(old(self).store.committed(), aggregate_id) + events@,
                            )
                            &&& (final(self).sender.published() == old(
                                self,
                            ).sender.published().push(events@) || final(self).sender.published()
                                == old(self).sender.published())
                            &&& old(self).sender.reliable() ==> final(self).sender.published()
                                == old(self).sender.published().push(events@)
                        }
                    },
                    Err(CommandError::ValidationFailed(_)) => {
                        &&& !handler.accepts(agg)
                        &&& final(self).store.committed() == old(self).store.committed()
                        &&& final(self).sender.published() == old(self).sender.published()
                    },
                    Err(CommandError::StoreUnavailable) => {
                        &&& final(self).store.committed() == old(self).store.committed()
                        &&& final(self).sender.published() == old(self).sender.published()
                    },
                    Err(CommandError::Conflict { .. }) => false,
                    Err(CommandError::InvalidIdentity) => false,
                }
            }),
            old(self).store.reliable() ==> (r.is_ok() <==> handler.accepts(
                aggregate_of(
                    old(self).state_builder,
                    old(self).store.committed(),
                    aggregate_id,
                ),
            )),
            final(self).metrics.validation_errors == (match r {
                Err(CommandError::ValidationFailed(_)) => bumped(
                    old(self).metrics.validation_errors,
                ),
                _ => old(self).metrics.validation_errors,
            }),
            final(self).metrics.store_errors == (match r {
                Err(CommandError::StoreUnavailable) => bumped(old(self).metrics.store_errors),
                _ => old(self).metrics.store_errors,
            }),
            r.is_err() ==> final(self).metrics.notification_failures == old(
                self,
            ).metrics.notification_failures,
    {
        self.metrics.commands_handled = bump(self.metrics.commands_handled);
        self.handle_existing(aggregate_id, handler)
    }

    /// A full creation command from the transport's raw material: resolve the
    /// identity text, validate the request, and run the create path. Deriving
    /// no events is a successful command that records nothing.
    pub fn command_new_aggregate<D: EventData, C: CreateHandler<D>>(
        &mut self,
        raw_id: &str,
        handler: &C,
        must_not_exist: bool,
    ) -> (r: Result<Vec<Event<D>>, CommandError>) where St: Store<D>, Se: Sender<D>
        requires
            engine_inv(old(self).store, old(self).sender),
            handler.accepts() ==> forall|id: u128|
                #[trigger] version_of(old(self).store.committed(), id) + handler.events().len()
                    <= u64::MAX,
        ensures
            engine_inv(final(self).store, final(self).sender),
            final(self).state_builder == old(self).state_builder,
            final(self).listener == old(self).listener,
            final(self).service_name == old(self).service_name,
            final(self).store.reliable() == old(self).store.reliable(),
            final(self).sender.reliable() == old(self).sender.reliable(),
            final(self).metrics.commands_handled == bumped(old(self).metrics.commands_handled),
            final(self).metrics.invalid_identity_errors == (match r {
                Err(CommandError::InvalidIdentity) => bumped(
                    old(self).metrics.invalid_identity_errors,
                ),
                _ => old(self).metrics.invalid_identity_errors,
            }),
            final(self).metrics.validation_errors == (match r {
                Err(CommandError::ValidationFailed(_)) => bumped(
                    old(self).metrics.validation_errors,
                ),
                _ => old(self).metrics.validation_errors,
            }),
            (r matches Err(CommandError::InvalidIdentity)) <==> uuid_of(raw_id@) is None,
            (r matches Err(CommandError::ValidationFailed(_))) <==> (uuid_of(raw_id@) is Some
                && !handler.accepts()),
            match r {
                Ok(events) => {
                    &&& uuid_of(raw_id@) matches Some(id)
                    &&& handler.accepts()
                    &&& batch_wf(
                        events@,
                        uuid_of(raw_id@).unwrap(),
                        version_of(old(self).store.committed(), uuid_of(raw_id@).unwrap()),
                        handler.events(),
                    )
                    &&& if handler.events().len() == 0 {
                        &&& final(self).store.committed() == old(self).store.committed()
                        &&& final(self).sender.published() == old(self).sender.published()
                    } else {
                        &&& append_allowed(
                            old(self).store.committed(),
                            uuid_of(raw_id@).unwrap(),
                            creation_guard(must_not_exist),
                        )
                        &&& final(self).store.committed() == old(self).store.committed().insert(
                            uuid_of(raw_id@).unwrap(),
                            log_of(old(self).store.committed(), uuid_of(raw_id@).unwrap())
                                + events@,
                        )
                        &&& (final(self).sender.published() == old(self).sender.published().push(
                            events@,
                        ) || final(self).sender.published() == old(self).sender.published())
                        &&& old(self).sender.reliable() ==> final(self).sender.published() == old(
                            self,
                        ).sender.published().push(events@)
                    }
                },
                Err(CommandError::Conflict { expected, actual }) => {
                    &&& uuid_of(raw_id@) matches Some(id)
                    &&& handler.accepts()
                    &&& creation_guard(must_not_exist) == Option::<u64>::Some(expected)
                    &&& actual as int == version_of(
                        old(self).store.committed(),
                        uuid_of(raw_id@).unwrap(),
                    )
                    &&& expected != actual
                    &&& final(self).store.committed() == old(self).store.committed()
                    &&& final(self).sender.published() == old(self).sender.published()
                },
                Err(_) => {
                    &&& final(self).store.committed() == old(self).store.committed()
                    &&& final(self).sender.published() == old(self).sender.published()
                },
            },
            match uuid_of(raw_id@) {
                Some(id) => old(self).store.reliable() && handler.accepts() && append_allowed(
                    old(self).store.committed(),
                    id,
                    creation_guard(must_not_exist),
                ) ==> r.is_ok(),
                None => true,
            },
    {
        self.metrics.commands_handled = bump(self.metrics.commands_handled);
        let aggregate_id = match parse_aggregate_id(raw_id) {
            Some(id) => id,
            None => {
                self.metrics.invalid_identity_errors = bump(
                    self.metrics.invalid_identity_errors,
                );
                return Err(CommandError::InvalidIdentity);
            },
        };
        let payloads = match handler.derive_events() {
            Ok(payloads) => payloads,
            Err(cause) => {
                self.metrics.validation_errors = bump(self.metrics.validation_errors);
                return Err(CommandError::ValidationFailed(cause));
            },
        };
        if payloads.len() == 0 {
            proof {
                assert(batch_wf(
                    Seq::<Event<D>>::empty(),
                    aggregate_id,
                    version_of(old(self).store.committed(), aggregate_id),
                    handler.events(),
                ));
            }
            Ok(Vec::new())
        } else {
            self.append_and_publish(aggregate_id, payloads, if must_not_exist {
                Some(0u64)
            } else {
                None
            })
        }
    }

    /// A full mutation command from the transport's raw material: resolve the
    /// identity text, then run the mutate path against the reconstructed
    /// current aggregate.
    pub fn command_existing_aggregate<S, D: EventData, H: EventHandler<S, D>>(
        &mut self,
        raw_id: &str,
        handler: &H,
    ) -> (r: Result<Vec<Event<D>>, CommandError>) where
        St: Store<D>,
        Se: Sender<D>,
        B: StateBuilder<S, D>,

        requires
            engine_inv(old(self).store, old(self).sender),
            forall|id: u128|
                handler.accepts(
                    #[trigger] aggregate_of(
                        old(self).state_builder,
                        old(self).store.committed(),
                        id,
                    ),
                ) ==> version_of(old(self).store.committed(), id) + handler.events(
                    aggregate_of(old(self).state_builder, old(self).store.committed(), id),
                ).len() <= u64::MAX,
        ensures
            engine_inv(final(self).store, final(self).sender),
            final(self).state_builder == old(self).state_builder,
            final(self).listener == old(self).listener,
            final(self).service_name == old(self).service_name,
            final(self).store.reliable() == old(self).store.reliable(),
            final(self).sender.reliable() == old(self).sender.reliable(),
            final(self).metrics.commands_handled == bumped(old(self).metrics.commands_handled),
            final(self).metrics.conflict_errors == old(self).metrics.conflict_errors,
            final(self).metrics.invalid_identity_errors == (match r {
                Err(CommandError::InvalidIdentity) => bumped(
                    old(self).metrics.invalid_identity_errors,
                ),
                _ => old(self).metrics.invalid_identity_errors,
            }),
            (r matches Err(CommandError::InvalidIdentity)) <==> uuid_of(raw_id@) is None,
            uuid_of(raw_id@) is None ==> final(self).store.committed() == old(
                self,
            ).store.committed() && final(self).sender.published() == old(
                self,
            ).sender.published(),
            uuid_of(raw_id@) matches Some(id) ==> ({
                let agg = aggregate_of(
                    old(self).state_builder,
                    old(self).store.committed(),
                    id,
                );
                match r {
                    Ok(events) => {
                        &&& handler.accepts(agg)
                        &&& batch_wf(
                            events@,
                            id,
                            version_of(old(self).store.committed(), id),
                            handler.events(agg),
                        )
                        &&& if handler.events(agg).len() == 0 {
                            &&& final(self).store.committed() == old(self).store.committed()
                            &&& final(self).sender.published() == old(self).sender.published()
                        } else {
                            &&& final(self).store.committed() == old(
                                self,
                            ).store.committed().insert(
                                id,
                                log_of(old(self).store.committed(), id) + events@,
                            )
                            &&& (final(self).sender.published() == old(
                                self,
                            ).sender.published().push(events@) || final(self).sender.published()
                                == old(self).sender.published())
                            &&& old(self).sender.reliable() ==> final(self).sender.published()
                                == old(self).sender.published().push(events@)
                        }
                    },
                    Err(CommandError::ValidationFailed(_)) => {
                        &&& !handler.accepts(agg)
                        &&& final(self).store.committed() == old(self).store.committed()
                        &&& final(self).sender.published() == old(self).sender.published()
                    },
                    Err(CommandError::StoreUnavailable) => {
                        &&& final(self).store.committed() == old(self).store.committed()
                        &&& final(self).sender.published() == old(self).sender.published()
                    },
                    Err(CommandError::Conflict { .. }) => false,
                    Err(CommandError::InvalidIdentity) => false,
                }
            }),
            match uuid_of(raw_id@) {
                Some(id) => old(self).store.reliable() ==> (r.is_ok() <==> handler.accepts(
                    aggregate_of(old(self).state_builder, old(self).store.committed(), id),
                )),
                None => true,
            },
    {
        self.metrics.commands_handled = bump(self.metrics.commands_handled);
        let aggregate_id = match parse_aggregate_id(raw_id) {
            Some(id) => id,
            None => {
                self.metrics.invalid_identity_errors = bump(
                    self.metrics.invalid_identity_errors,
                );
                return Err(CommandError::InvalidIdentity);
            },
        };
        self.handle_existing(aggregate_id, handler)
    }

    /// Rebuilds one aggregate's transient in-memory representation — identity,
    /// persisted version, projected state — from its stored history, mutating
    /// nothing. An absent aggregate comes back as the empty state at version 0.
    pub fn get_aggregate<S, D: EventData>(&self, aggregate_id: u128) -> (r: Result<
        Aggregate<S>,
        CommandError,
    >) where St: Store<D>, B: StateBuilder<S, D>
        requires
            self.store.inv(),
        ensures
            match r {
                Ok(current) => current == aggregate_of(
                    self.state_builder,
                    self.store.committed(),
                    aggregate_id,
                ),
                Err(CommandError::StoreUnavailable) => !self.store.reliable(),
                Err(_) => false,
            },
            self.store.reliable() ==> r.is_ok(),
    {
        proof {
            self.store.inv_implies_committed_wf();
            if log_of(self.store.committed(), aggregate_id).len() > 0 {
                let log = log_of(self.store.committed(), aggregate_id);
                assert(log[log.len() - 1].sequence_number as int == log.len() as int);
            }
        }
        let loaded = match self.store.load_events(aggregate_id) {
            Ok(events) => events,
            Err(StoreError::Unavailable) => {
                return Err(CommandError::StoreUnavailable);
            },
        };
        let version: u64 = loaded.len() as u64;
        let state = self.project_current(&loaded);
        Ok(Aggregate { aggregate_id, version, state })
    }

    /// Rebuilds the current state through the engine's own builder.
    fn project_current<S, D: EventData>(&self, events: &Vec<Event<D>>) -> (r: S) where
        B: StateBuilder<S, D>,

        ensures
            r == crate::aggregate::project_spec(
                self.state_builder,
                self.state_builder.spec_init(),
                events@,
            ),
    {
        project(&self.state_builder, events)
    }
}

impl<D: EventData, St, B> Eventific<St, B, MemorySender<D>, MemoryListener> {
    /// Yields the next announced batch for the default in-process channel.
    /// Under the engine invariant, every batch it yields is already durable.
    pub fn poll_notifications(&mut self) -> (r: Option<Vec<Event<D>>>)
        ensures
            final(self).store == old(self).store,
            final(self).state_builder == old(self).state_builder,
            final(self).sender == old(self).sender,
            final(self).service_name == old(self).service_name,
            final(self).metrics == old(self).metrics,
            match r {
                Some(batch) => {
                    &&& old(self).listener.cursor() < old(self).sender.published().len()
                    &&& batch@ == old(self).sender.published()[old(self).listener.cursor()]
                    &&& final(self).listener.cursor() == old(self).listener.cursor() + 1
                },
                None => {
                    &&& old(self).listener.cursor() >= old(self).sender.published().len()
                    &&& final(self).listener.cursor() == old(self).listener.cursor()
                },
            },
    {
        self.listener.poll(&self.sender)
    }
}

/// Resolves caller-supplied identity text, or reports it malformed.
pub fn get_uuid(raw_id: &str) -> (r: Result<u128, CommandError>)
    ensures
        match r {
            Ok(id) => uuid_of(raw_id@) == Some(id),
            Err(CommandError::InvalidIdentity) => uuid_of(raw_id@) is None,
            Err(_) => false,
        },
{
    match parse_aggregate_id(raw_id) {
        Some(id) => Ok(id),
        None => Err(CommandError::InvalidIdentity),
    }
}

} // verus!
