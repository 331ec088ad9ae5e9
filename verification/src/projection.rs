//! Projection state, control, application and query rules.

pub mod control;
pub mod control_laws;
pub mod sizes;
pub mod state;
pub mod apply;
pub mod apply_laws;
pub mod snapshot;
pub mod request_laws;
pub mod batch;
pub mod batch_laws;
pub mod outcome_laws;
pub mod ports;
pub mod query;
pub mod query_laws;
pub mod acceptance_laws;
