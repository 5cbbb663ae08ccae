use eventific::EventificBuilder;
use eventific::Eventific;
use eventific::aggregate::{Aggregate, StateBuilder, project};
use eventific::event::{Event, EventData};
use eventific::eventific::{CommandError, CreateHandler, EventHandler, EventificError, get_uuid};
use eventific::notification::{
    MemoryListener, MemorySender, NotificationError, Sender, create_memory_notification_pair,
};
use eventific::store::{AppendError, MemoryStore, Store, StoreError};
use vstd::map::Map;
use vstd::seq::Seq;

// The ghost members of the verified traits (spec and proof functions) survive
// compilation as ordinary items, so an implementation outside the verified
// crate must supply them; they are never called at runtime.

#[derive(Clone, Copy, PartialEq, Eq, Debug)]
enum TicketEvent {
    Created,
    Reserved(u64),
    Released(u64),
}

impl EventData for TicketEvent {
    fn dup(&self) -> Self {
        *self
    }
}

#[derive(Clone, Copy, PartialEq, Eq, Debug)]
struct TicketState {
    exists: bool,
    reserved: u64,
}

struct TicketProjection;

impl StateBuilder<TicketState, TicketEvent> for TicketProjection {
    fn spec_init(&self) -> TicketState {
        unreachable!()
    }

    fn spec_apply(&self, _state: TicketState, _event: Event<TicketEvent>) -> TicketState {
        unreachable!()
    }

    fn init_state(&self) -> TicketState {
        TicketState { exists: false, reserved: 0 }
    }

    fn apply(&self, state: TicketState, event: &Event<TicketEvent>) -> TicketState {
        match event.payload {
            TicketEvent::Created => TicketState { exists: true, ..state },
            TicketEvent::Reserved(n) => {
                TicketState { reserved: state.reserved.saturating_add(n), ..state }
            }
            TicketEvent::Released(n) => {
                TicketState { reserved: state.reserved.saturating_sub(n), ..state }
            }
        }
    }
}

struct CreateTicket {
    valid: bool,
}

impl CreateHandler<TicketEvent> for CreateTicket {
    fn accepts(&self) -> bool {
        unreachable!()
    }

    fn events(&self) -> Seq<TicketEvent> {
        unreachable!()
    }

    fn derive_events(&self) -> Result<Vec<TicketEvent>, String> {
        if self.valid {
            Ok(vec![TicketEvent::Created])
        } else {
            Err("create request rejected".to_owned())
        }
    }
}

struct ReserveTickets {
    count: u64,
}

impl EventHandler<TicketState, TicketEvent> for ReserveTickets {
    fn accepts(&self, _current: Aggregate<TicketState>) -> bool {
        unreachable!()
    }

    fn events(&self, _current: Aggregate<TicketState>) -> Seq<TicketEvent> {
        unreachable!()
    }

    fn handle(&self, current: &Aggregate<TicketState>) -> Result<Vec<TicketEvent>, String> {
        if !current.state.exists {
            return Err("no such aggregate".to_owned());
        }
        Ok(vec![TicketEvent::Reserved(self.count)])
    }
}

struct NoOpCommand;

impl EventHandler<TicketState, TicketEvent> for NoOpCommand {
    fn accepts(&self, _current: Aggregate<TicketState>) -> bool {
        unreachable!()
    }

    fn events(&self, _current: Aggregate<TicketState>) -> Seq<TicketEvent> {
        unreachable!()
    }

    fn handle(&self, _current: &Aggregate<TicketState>) -> Result<Vec<TicketEvent>, String> {
        Ok(Vec::new())
    }
}

struct FailingStore;

impl Store<TicketEvent> for FailingStore {
    fn committed(&self) -> Map<u128, Seq<Event<TicketEvent>>> {
        unreachable!()
    }

    fn reliable(&self) -> bool {
        unreachable!()
    }

    fn inv(&self) -> bool {
        unreachable!()
    }

    fn inv_implies_committed_wf(&self) {
        unreachable!()
    }

    fn init(&mut self, _service_namespace: &str) -> Result<(), StoreError> {
        Err(StoreError::Unavailable)
    }

    fn load_events(&self, _aggregate_id: u128) -> Result<Vec<Event<TicketEvent>>, StoreError> {
        Err(StoreError::Unavailable)
    }

    fn append_events(
        &mut self,
        _aggregate_id: u128,
        _payloads: Vec<TicketEvent>,
        _expected_version: Option<u64>,
    ) -> Result<Vec<Event<TicketEvent>>, AppendError> {
        Err(AppendError::Unavailable)
    }
}

struct UnreliableSender;

impl Sender<TicketEvent> for UnreliableSender {
    fn published(&self) -> Seq<Seq<Event<TicketEvent>>> {
        unreachable!()
    }

    fn reliable(&self) -> bool {
        unreachable!()
    }

    fn inv(&self) -> bool {
        unreachable!()
    }

    fn init(&mut self, _service_namespace: &str) -> Result<(), NotificationError> {
        Ok(())
    }

    fn publish(&mut self, _events: &Vec<Event<TicketEvent>>) -> Result<(), NotificationError> {
        Err(NotificationError::Unavailable)
    }
}

fn engine() -> Eventific<
    MemoryStore<TicketEvent>,
    TicketProjection,
    MemorySender<TicketEvent>,
    MemoryListener,
> {
    EventificBuilder::new()
        .service_name("tickets")
        .state_builder(TicketProjection)
        .start()
        .unwrap()
}

const ID_A: u128 = 0xa1a2a3a4b1b2c1c2d1d2d3d4d5d6d7d8;
const ID_B: u128 = 0x00112233445566778899aabbccddeeff;

fn payloads(events: &[Event<TicketEvent>]) -> Vec<TicketEvent> {
    events.iter().map(|e| e.payload).collect()
}

#[test]
fn monotonic_contiguous_versioning() {
    let mut store: MemoryStore<TicketEvent> = MemoryStore::new();
    store.append_events(ID_A, vec![TicketEvent::Created], None).unwrap();
    store
        .append_events(ID_A, vec![TicketEvent::Reserved(2), TicketEvent::Reserved(3)], None)
        .unwrap();
    store
        .append_events(
            ID_A,
            vec![TicketEvent::Released(1), TicketEvent::Reserved(5), TicketEvent::Released(2)],
            None,
        )
        .unwrap();
    let loaded = store.load_events(ID_A).unwrap();
    assert_eq!(loaded.len(), 6);
    for (k, event) in loaded.iter().enumerate() {
        assert_eq!(event.sequence_number, (k + 1) as u64);
        assert_eq!(event.aggregate_id, ID_A);
    }
    assert_eq!(
        payloads(&loaded),
        vec![
            TicketEvent::Created,
            TicketEvent::Reserved(2),
            TicketEvent::Reserved(3),
            TicketEvent::Released(1),
            TicketEvent::Reserved(5),
            TicketEvent::Released(2),
        ]
    );
}

#[test]
fn appends_to_different_aggregates_are_independent() {
    let mut store: MemoryStore<TicketEvent> = MemoryStore::new();
    store.append_events(ID_A, vec![TicketEvent::Created], None).unwrap();
    store.append_events(ID_B, vec![TicketEvent::Created, TicketEvent::Reserved(1)], None).unwrap();
    assert_eq!(store.load_events(ID_A).unwrap().len(), 1);
    assert_eq!(store.load_events(ID_B).unwrap().len(), 2);
    assert_eq!(store.load_events(0x99).unwrap().len(), 0);
}

#[test]
fn optimistic_concurrency_exactly_one_wins() {
    let mut store: MemoryStore<TicketEvent> = MemoryStore::new();
    store.append_events(ID_A, vec![TicketEvent::Created], None).unwrap();
    // two writers race on the same expected version; the store linearizes
    // them, admits one, and refuses the other with a conflict
    let winner = store.append_events(ID_A, vec![TicketEvent::Reserved(2)], Some(1));
    assert!(winner.is_ok());
    let loser = store.append_events(ID_A, vec![TicketEvent::Reserved(9)], Some(1));
    assert!(matches!(loser, Err(AppendError::Conflict { expected: 1, actual: 2 })));
    // nothing was persisted for the losing call
    let loaded = store.load_events(ID_A).unwrap();
    assert_eq!(payloads(&loaded), vec![TicketEvent::Created, TicketEvent::Reserved(2)]);
}

#[test]
fn projection_is_deterministic_and_splits() {
    let mut store: MemoryStore<TicketEvent> = MemoryStore::new();
    store
        .append_events(
            ID_A,
            vec![
                TicketEvent::Created,
                TicketEvent::Reserved(4),
                TicketEvent::Released(1),
                TicketEvent::Reserved(2),
            ],
            None,
        )
        .unwrap();
    let events = store.load_events(ID_A).unwrap();
    let builder = TicketProjection;
    let once: TicketState = project(&builder, &events);
    let twice: TicketState = project(&builder, &events);
    assert_eq!(once, twice);
    assert_eq!(once, TicketState { exists: true, reserved: 5 });
    // a prefix continued with the suffix reaches the same state
    let prefix: Vec<Event<TicketEvent>> = store.load_events(ID_A).unwrap().into_iter().take(2).collect();
    let mut state: TicketState = project(&builder, &prefix);
    for event in events.iter().skip(2) {
        state = builder.apply(state, event);
    }
    assert_eq!(state, once);
}

#[test]
fn create_with_existence_guard() {
    let mut engine = engine();
    let first = engine.create_aggregate(ID_A, vec![TicketEvent::Created], true);
    assert!(first.is_ok());
    let second = engine.create_aggregate(ID_A, vec![TicketEvent::Created], true);
    assert!(matches!(second, Err(CommandError::Conflict { expected: 0, actual: 1 })));
    // the existing log is untouched
    let loaded = engine.store.load_events(ID_A).unwrap();
    assert_eq!(payloads(&loaded), vec![TicketEvent::Created]);
    assert_eq!(engine.metrics.conflict_errors, 1);
    assert_eq!(engine.metrics.commands_handled, 2);
}

#[test]
fn unchecked_create_appends_unconditionally() {
    let mut engine = engine();
    engine.create_aggregate(ID_A, vec![TicketEvent::Created], false).unwrap();
    let again = engine.create_aggregate(ID_A, vec![TicketEvent::Reserved(1)], false);
    assert!(again.is_ok());
    assert_eq!(engine.store.load_events(ID_A).unwrap().len(), 2);
}

#[test]
fn notification_after_durability() {
    let mut engine = engine();
    engine.create_aggregate(ID_A, vec![TicketEvent::Created], true).unwrap();
    let batch = engine.poll_notifications().unwrap();
    assert_eq!(payloads(&batch), vec![TicketEvent::Created]);
    assert_eq!(batch[0].sequence_number, 1);
    // a refused append announces nothing
    let refused = engine.create_aggregate(ID_A, vec![TicketEvent::Created], true);
    assert!(refused.is_err());
    assert!(engine.poll_notifications().is_none());
}

#[test]
fn end_to_end_scenario() {
    let mut engine = engine();
    // create aggregate A with one event against empty prior state
    let created = engine.create_aggregate(ID_A, vec![TicketEvent::Created], true).unwrap();
    assert_eq!(created.len(), 1);
    assert_eq!(created[0].sequence_number, 1);
    let builder = TicketProjection;
    let history = engine.store.load_events(ID_A).unwrap();
    let state: TicketState = project(&builder, &history);
    assert_eq!(state, TicketState { exists: true, reserved: 0 });
    // consume the creation announcement
    let first_batch = engine.poll_notifications().unwrap();
    assert_eq!(payloads(&first_batch), vec![TicketEvent::Created]);
    // mutate A: the handler sees the current state and derives two events,
    // guarded by the version that was read
    struct Restock;
    impl EventHandler<TicketState, TicketEvent> for Restock {
        fn accepts(&self, _current: Aggregate<TicketState>) -> bool {
            unreachable!()
        }

        fn events(&self, _current: Aggregate<TicketState>) -> Seq<TicketEvent> {
            unreachable!()
        }

        fn handle(&self, current: &Aggregate<TicketState>) -> Result<Vec<TicketEvent>, String> {
            assert_eq!(current.version, 1);
            assert!(current.state.exists);
            Ok(vec![TicketEvent::Reserved(2), TicketEvent::Released(1)])
        }
    }
    let appended = engine.add_events_to_aggregate(ID_A, &Restock).unwrap();
    assert_eq!(payloads(&appended), vec![TicketEvent::Reserved(2), TicketEvent::Released(1)]);
    assert_eq!(appended[0].sequence_number, 2);
    assert_eq!(appended[1].sequence_number, 3);
    // version 3, events E1 E2 E3 in the store
    let full = engine.store.load_events(ID_A).unwrap();
    assert_eq!(
        payloads(&full),
        vec![TicketEvent::Created, TicketEvent::Reserved(2), TicketEvent::Released(1)]
    );
    assert_eq!(full[2].sequence_number, 3);
    // the listener receives exactly the mutation batch
    let second_batch = engine.poll_notifications().unwrap();
    assert_eq!(payloads(&second_batch), vec![TicketEvent::Reserved(2), TicketEvent::Released(1)]);
    // a third command racing on the stale version observes the conflict
    let racer = engine.store.append_events(ID_A, vec![TicketEvent::Reserved(9)], Some(1));
    assert!(matches!(racer, Err(AppendError::Conflict { expected: 1, actual: 3 })));
}

#[test]
fn mutating_a_missing_aggregate_is_the_handlers_call() {
    let mut engine = engine();
    let refused = engine.add_events_to_aggregate(ID_B, &ReserveTickets { count: 1 });
    match refused {
        Err(CommandError::ValidationFailed(cause)) => {
            assert_eq!(cause, "no such aggregate");
        }
        other => panic!("expected a validation failure, got {:?}", other),
    }
    assert_eq!(engine.metrics.validation_errors, 1);
    assert!(engine.store.load_events(ID_B).unwrap().is_empty());
}

#[test]
fn deriving_no_events_succeeds_and_records_nothing() {
    let mut engine = engine();
    engine.create_aggregate(ID_A, vec![TicketEvent::Created], true).unwrap();
    engine.poll_notifications().unwrap();
    let outcome = engine.add_events_to_aggregate(ID_A, &NoOpCommand).unwrap();
    assert!(outcome.is_empty());
    assert_eq!(engine.store.load_events(ID_A).unwrap().len(), 1);
    assert!(engine.poll_notifications().is_none());
}

#[test]
fn command_new_aggregate_resolves_identity_and_validates() {
    let mut engine = engine();
    let raw = "a1a2a3a4-b1b2-c1c2-d1d2-d3d4d5d6d7d8";
    let malformed = engine.command_new_aggregate("not-an-identity", &CreateTicket { valid: true }, true);
    assert!(matches!(malformed, Err(CommandError::InvalidIdentity)));
    assert_eq!(engine.metrics.invalid_identity_errors, 1);
    let rejected = engine.command_new_aggregate(raw, &CreateTicket { valid: false }, true);
    assert!(matches!(rejected, Err(CommandError::ValidationFailed(_))));
    assert_eq!(engine.metrics.validation_errors, 1);
    let accepted = engine.command_new_aggregate(raw, &CreateTicket { valid: true }, true).unwrap();
    assert_eq!(accepted.len(), 1);
    assert_eq!(accepted[0].aggregate_id, ID_A);
    assert_eq!(accepted[0].sequence_number, 1);
    assert_eq!(engine.metrics.commands_handled, 3);
}

#[test]
fn command_existing_aggregate_resolves_identity() {
    let mut engine = engine();
    let raw = "a1a2a3a4-b1b2-c1c2-d1d2-d3d4d5d6d7d8";
    engine.command_new_aggregate(raw, &CreateTicket { valid: true }, true).unwrap();
    let appended = engine.command_existing_aggregate(raw, &ReserveTickets { count: 7 }).unwrap();
    assert_eq!(payloads(&appended), vec![TicketEvent::Reserved(7)]);
    assert_eq!(appended[0].aggregate_id, ID_A);
    let malformed = engine.command_existing_aggregate("{bad}", &ReserveTickets { count: 1 });
    assert!(matches!(malformed, Err(CommandError::InvalidIdentity)));
}

#[test]
fn identity_parsing_matches_the_parser_it_relies_on() {
    let raw = "a1a2a3a4-b1b2-c1c2-d1d2-d3d4d5d6d7d8";
    let expected = uuid::Uuid::parse_str(raw).unwrap().as_u128();
    assert_eq!(get_uuid(raw).unwrap(), expected);
    assert_eq!(expected, ID_A);
    let simple = "a1a2a3a4b1b2c1c2d1d2d3d4d5d6d7d8";
    assert_eq!(get_uuid(simple).unwrap(), ID_A);
    assert!(matches!(get_uuid("a1a2"), Err(CommandError::InvalidIdentity)));
    assert!(matches!(get_uuid(""), Err(CommandError::InvalidIdentity)));
}

#[test]
fn store_failures_surface_as_store_unavailable() {
    let mut engine = Eventific::create(
        FailingStore,
        TicketProjection,
        MemorySender::new(),
        MemoryListener::new(),
        "tickets".to_owned(),
    );
    let refused = engine.add_events_to_aggregate(ID_A, &ReserveTickets { count: 1 });
    assert!(matches!(refused, Err(CommandError::StoreUnavailable)));
    assert_eq!(engine.metrics.store_errors, 1);
    let refused = engine.create_aggregate(ID_A, vec![TicketEvent::Created], false);
    assert!(matches!(refused, Err(CommandError::StoreUnavailable)));
    assert_eq!(engine.metrics.store_errors, 2);
    // nothing durable, nothing announced
    assert_eq!(engine.sender.publication_count(), 0);
}

#[test]
fn announcement_failure_does_not_fail_the_command() {
    let mut engine = Eventific::create(
        MemoryStore::new(),
        TicketProjection,
        UnreliableSender,
        MemoryListener::new(),
        "tickets".to_owned(),
    );
    let created = engine.create_aggregate(ID_A, vec![TicketEvent::Created], true);
    assert!(created.is_ok());
    assert_eq!(engine.metrics.notification_failures, 1);
    // the append is durable even though the announcement was lost
    assert_eq!(engine.store.load_events(ID_A).unwrap().len(), 1);
}

#[test]
fn startup_initializes_in_order_and_propagates_the_first_failure() {
    let started = EventificBuilder::new()
        .state_builder(TicketProjection)
        .store(FailingStore)
        .start();
    assert!(matches!(started, Err(EventificError::StoreInitError(StoreError::Unavailable))));
    let engine = engine();
    assert_eq!(engine.metrics.commands_handled, 0);
    assert_eq!(engine.service_name, "tickets");
}

#[test]
fn builder_carries_its_configuration() {
    let builder = EventificBuilder::<
        MemoryStore<TicketEvent>,
        _,
        MemorySender<TicketEvent>,
        _,
    >::new();
    assert_eq!(builder.service_name, "default");
    assert_eq!(builder.web_socket, "127.0.0.1");
    assert_eq!(builder.web_port, 9000);
    assert!(builder.enable_web_server);
    let builder = builder
        .service_name("tickets")
        .web_socket("0.0.0.0")
        .web_port(8080)
        .enable_web_server(false);
    assert_eq!(builder.service_name, "tickets");
    assert_eq!(builder.web_socket, "0.0.0.0");
    assert_eq!(builder.web_port, 8080);
    assert!(!builder.enable_web_server);
}

#[test]
fn memory_notification_pair_is_ordered_and_restartable() {
    let (mut sender, mut listener) = create_memory_notification_pair::<TicketEvent>();
    assert!(listener.poll(&sender).is_none());
    let batch_one = vec![Event {
        aggregate_id: ID_A,
        sequence_number: 1,
        recorded_at: 0,
        payload: TicketEvent::Created,
    }];
    let batch_two = vec![Event {
        aggregate_id: ID_A,
        sequence_number: 2,
        recorded_at: 1,
        payload: TicketEvent::Reserved(1),
    }];
    sender.publish(&batch_one).unwrap();
    sender.publish(&batch_two).unwrap();
    assert_eq!(sender.publication_count(), 2);
    assert_eq!(payloads(&listener.poll(&sender).unwrap()), vec![TicketEvent::Created]);
    assert_eq!(payloads(&listener.poll(&sender).unwrap()), vec![TicketEvent::Reserved(1)]);
    assert!(listener.poll(&sender).is_none());
    listener.reset();
    assert_eq!(payloads(&listener.poll(&sender).unwrap()), vec![TicketEvent::Created]);
}

#[test]
fn aggregate_handle_reflects_the_stored_history() {
    let mut engine = engine();
    let missing = engine.get_aggregate::<TicketState, TicketEvent>(ID_A).unwrap();
    assert_eq!(missing.aggregate_id, ID_A);
    assert_eq!(missing.version, 0);
    assert_eq!(missing.state, TicketState { exists: false, reserved: 0 });
    engine
        .create_aggregate(ID_A, vec![TicketEvent::Created, TicketEvent::Reserved(4)], true)
        .unwrap();
    let current = engine.get_aggregate::<TicketState, TicketEvent>(ID_A).unwrap();
    assert_eq!(current.version, 2);
    assert_eq!(current.state, TicketState { exists: true, reserved: 4 });
}
