//! Deadline-driven triggers for tasks: a recurring pester nudge, a one-shot
//! reminder before the deadline and a one-shot overdue notice after it.
//!
//! The crate turns a task's recurrence interval and due timestamp into trigger
//! expressions, keeps the registry of live triggers together with the
//! persisted trigger record of every task, and rebuilds the registry from the
//! persisted records after a restart. It also composes what the notifier says
//! when a trigger fires, and the replies of the service.

pub mod text;
pub mod job;
pub mod calendar;
pub mod expression;
pub mod model;
pub mod store;
pub mod registry;
pub mod state;
pub mod invariants;
pub mod laws;
pub mod scheduler;
pub mod message;
pub mod response;
