//! An event-sourcing engine.
//!
//! Domain state is persisted exclusively as an append-only, per-aggregate
//! sequence of immutable events, and current state is reconstructed on demand
//! by folding that sequence through a state builder. The engine guarantees a
//! contiguous, gap-free version history per aggregate, detects lost updates
//! through an expected-version guard on every append, and announces committed
//! event batches to listeners only after they are durable.

pub mod aggregate;
pub mod builder;
pub mod event;
pub mod eventific;
pub mod identity;
pub mod laws;
pub mod metrics;
pub mod notification;
pub mod store;

pub use crate::builder::EventificBuilder;
pub use crate::eventific::Eventific;
