//! Longitudinal care-plan management: goals, interventions, barriers to
//! progress, scheduled reviews and care-team assignments, kept in a
//! persistent entity store with per-type identifier allocation and
//! append-only relationship indices.
//!
//! Every command authenticates a principal, performs its storage work as one
//! atomic unit, and records exactly one domain event on success. The module
//! [`model`] gives the mathematical transition for each command; the
//! executable service in [`service`] is proved to follow it exactly.

pub mod types;
pub mod store;
pub mod model;
pub mod service;
pub mod laws;

pub use types::Address;
pub use types::Error;
pub use types::GoalStatus;
pub use types::CarePlanStatus;
pub use types::DomainEvent;
pub use service::CarePlanContract;
