//! Night-light control: the service-side state store, the time-of-day
//! schedule, and the client-side reconciliation engine that arbitrates between
//! the schedule and manual changes.
pub mod intensity;
pub mod schedule;
pub mod state;
pub mod store;
pub mod engine;
pub mod laws;
