//! The startup builder: assemble a store, a projection, a notification pair
//! and the service configuration, then bring the engine up — store first, then
//! sender, then listener, propagating the first failure — since later
//! collaborators may assume earlier ones are ready.

use vstd::prelude::*;
use crate::aggregate::NoopBuilder;
use crate::event::{Event, EventData};
use crate::eventific::{Eventific, EventificError, engine_inv};
use crate::metrics::zeroed;
use crate::notification::{
    Sender, Listener, MemorySender, MemoryListener, create_memory_notification_pair,
    published_durable,
};
use crate::store::{Store, MemoryStore};

verus! {

/// Accumulates the collaborators an engine starts from. Each setter replaces
/// one of them; `start` initializes them in order and hands back the running
/// engine.
pub struct EventificBuilder<St, B, Se, L> {
    pub store: St,
    pub state_builder: B,
    pub sender: Se,
    pub listener: L,
    pub service_name: String,
    pub web_socket: String,
    pub web_port: u16,
    pub enable_web_server: bool,
}

impl<D: EventData> EventificBuilder<
    MemoryStore<D>,
    NoopBuilder,
    MemorySender<D>,
    MemoryListener,
> {
    /// The default composition: the in-memory store, the stateless projection,
    /// and the in-process notification pair.
    pub fn new() -> (r: Self)
        ensures
            r.store.committed() == Map::<u128, Seq<Event<D>>>::empty(),
            r.store.inv(),
            r.store.reliable(),
            r.sender.published() == Seq::<Seq<Event<D>>>::empty(),
            r.sender.inv(),
            r.sender.reliable(),
            r.listener.inv(),
            r.listener.reliable(),
            r.listener.cursor() == 0,
            r.service_name@ == "default"@,
            r.web_socket@ == "127.0.0.1"@,
            r.web_port == 9000,
            r.enable_web_server == true,
    {
        let (sender, listener) = create_memory_notification_pair();
        EventificBuilder {
            store: MemoryStore::new(),
            state_builder: NoopBuilder,
            sender,
            listener,
            service_name: "default".to_owned(),
            web_socket: "127.0.0.1".to_owned(),
            web_port: 9000,
            enable_web_server: true,
        }
    }
}

impl<St, B, Se, L> EventificBuilder<St, B, Se, L> {
    /// Names the service; backends receive it as their namespace.
    pub fn service_name(self, service_name: &str) -> (r: Self)
        ensures
            r.service_name@ == service_name@,
            r.store == self.store,
            r.state_builder == self.state_builder,
            r.sender == self.sender,
            r.listener == self.listener,
            r.web_socket == self.web_socket,
            r.web_port == self.web_port,
            r.enable_web_server == self.enable_web_server,
    {
        EventificBuilder {
            store: self.store,
            state_builder: self.state_builder,
            sender: self.sender,
            listener: self.listener,
            service_name: service_name.to_owned(),
            web_socket: self.web_socket,
            web_port: self.web_port,
            enable_web_server: self.enable_web_server,
        }
    }

    /// Where the diagnostic web server would bind.
    pub fn web_socket(self, web_socket: &str) -> (r: Self)
        ensures
            r.web_socket@ == web_socket@,
            r.store == self.store,
            r.state_builder == self.state_builder,
            r.sender == self.sender,
            r.listener == self.listener,
            r.service_name == self.service_name,
            r.web_port == self.web_port,
            r.enable_web_server == self.enable_web_server,
    {
        EventificBuilder {
            store: self.store,
            state_builder: self.state_builder,
            sender: self.sender,
            listener: self.listener,
            service_name: self.service_name,
            web_socket: web_socket.to_owned(),
            web_port: self.web_port,
            enable_web_server: self.enable_web_server,
        }
    }

    /// Which port the diagnostic web server would use.
    pub fn web_port(self, web_port: u16) -> (r: Self)
        ensures
            r.web_port == web_port,
            r.store == self.store,
            r.state_builder == self.state_builder,
            r.sender == self.sender,
            r.listener == self.listener,
            r.service_name == self.service_name,
            r.web_socket == self.web_socket,
            r.enable_web_server == self.enable_web_server,
    {
        EventificBuilder {
            store: self.store,
            state_builder: self.state_builder,
            sender: self.sender,
            listener: self.listener,
            service_name: self.service_name,
            web_socket: self.web_socket,
            web_port,
            enable_web_server: self.enable_web_server,
        }
    }

    /// Whether a surrounding layer should run the diagnostic web server.
    pub fn enable_web_server(self, enable_web_server: bool) -> (r: Self)
        ensures
            r.enable_web_server == enable_web_server,
            r.store == self.store,
            r.state_builder == self.state_builder,
            r.sender == self.sender,
            r.listener == self.listener,
            r.service_name == self.service_name,
            r.web_socket == self.web_socket,
            r.web_port == self.web_port,
    {
        EventificBuilder {
            store: self.store,
            state_builder: self.state_builder,
            sender: self.sender,
            listener: self.listener,
            service_name: self.service_name,
            web_socket: self.web_socket,
            web_port: self.web_port,
            enable_web_server,
        }
    }

    /// Replaces the projection.
    pub fn state_builder<NB>(self, state_builder: NB) -> (r: EventificBuilder<St, NB, Se, L>)
        ensures
            r.state_builder == state_builder,
            r.store == self.store,
            r.sender == self.sender,
            r.listener == self.listener,
            r.service_name == self.service_name,
            r.web_socket == self.web_socket,
            r.web_port == self.web_port,
            r.enable_web_server == self.enable_web_server,
    {
        EventificBuilder {
            store: self.store,
            state_builder,
            sender: self.sender,
            listener: self.listener,
            service_name: self.service_name,
            web_socket: self.web_socket,
            web_port: self.web_port,
            enable_web_server: self.enable_web_server,
        }
    }

    /// Replaces the persistence backend.
    pub fn store<NSt>(self, store: NSt) -> (r: EventificBuilder<NSt, B, Se, L>)
        ensures
            r.store == store,
            r.state_builder == self.state_builder,
            r.sender == self.sender,
            r.listener == self.listener,
            r.service_name == self.service_name,
            r.web_socket == self.web_socket,
            r.web_port == self.web_port,
            r.enable_web_server == self.enable_web_server,
    {
        EventificBuilder {
            store,
            state_builder: self.state_builder,
            sender: self.sender,
            listener: self.listener,
            service_name: self.service_name,
            web_socket: self.web_socket,
            web_port: self.web_port,
            enable_web_server: self.enable_web_server,
        }
    }

    /// Replaces the announcing backend.
    pub fn sender<NSe>(self, sender: NSe) -> (r: EventificBuilder<St, B, NSe, L>)
        ensures
            r.sender == sender,
            r.store == self.store,
            r.state_builder == self.state_builder,
            r.listener == self.listener,
            r.service_name == self.service_name,
            r.web_socket == self.web_socket,
            r.web_port == self.web_port,
            r.enable_web_server == self.enable_web_server,
    {
        EventificBuilder {
            store: self.store,
            state_builder: self.state_builder,
            sender,
            listener: self.listener,
            service_name: self.service_name,
            web_socket: self.web_socket,
            web_port: self.web_port,
            enable_web_server: self.enable_web_server,
        }
    }

    /// Replaces the receiving backend.
    pub fn listener<NL>(self, listener: NL) -> (r: EventificBuilder<St, B, Se, NL>)
        ensures
            r.listener == listener,
            r.store == self.store,
            r.state_builder == self.state_builder,
            r.sender == self.sender,
            r.service_name == self.service_name,
            r.web_socket == self.web_socket,
            r.web_port == self.web_port,
            r.enable_web_server == self.enable_web_server,
    {
        EventificBuilder {
            store: self.store,
            state_builder: self.state_builder,
            sender: self.sender,
            listener,
            service_name: self.service_name,
            web_socket: self.web_socket,
            web_port: self.web_port,
            enable_web_server: self.enable_web_server,
        }
    }

    /// Brings the engine up: store first, then sender, then listener; the
    /// first failure aborts startup and names the collaborator that failed.
    /// Startup loses nothing: the running engine sees exactly the committed
    /// events and announcements the builder's backends held.
    pub fn start<D: EventData>(self) -> (r: Result<Eventific<St, B, Se, L>, EventificError>) where
        St: Store<D>,
        Se: Sender<D>,
        L: Listener,

        requires
            self.store.inv(),
            self.sender.inv(),
            self.listener.inv(),
            published_durable(self.sender.published(), self.store.committed()),
        ensures
            match r {
                Ok(e) => {
                    &&& engine_inv(e.store, e.sender)
                    &&& e.store.committed() == self.store.committed()
                    &&& e.store.reliable() == self.store.reliable()
                    &&& e.sender.published() == self.sender.published()
                    &&& e.sender.reliable() == self.sender.reliable()
                    &&& e.state_builder == self.state_builder
                    &&& e.service_name == self.service_name
                    &&& zeroed(e.metrics)
                },
                Err(EventificError::StoreInitError(_)) => !self.store.reliable(),
                Err(EventificError::SendNotificationInitError(_)) => !self.sender.reliable()
                    || !self.listener.reliable(),
            },
            self.store.reliable() && self.sender.reliable() && self.listener.reliable()
                ==> r.is_ok(),
    {
        let mut store = self.store;
        let state_builder = self.state_builder;
        let mut sender = self.sender;
        let mut listener = self.listener;
        let service_name = self.service_name;
        match store.init(service_name.as_str()) {
            Ok(()) => {},
            Err(e) => {
                return Err(EventificError::StoreInitError(e));
            },
        }
        match sender.init(service_name.as_str()) {
            Ok(()) => {},
            Err(e) => {
                return Err(EventificError::SendNotificationInitError(e));
            },
        }
        match listener.init(service_name.as_str()) {
            Ok(()) => {},
            Err(e) => {
                return Err(EventificError::SendNotificationInitError(e));
            },
        }
        Ok(Eventific::create(store, state_builder, sender, listener, service_name))
    }
}

} // verus!
