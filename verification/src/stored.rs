//! Stored records as plain values.

pub mod application;
pub mod application_export;
pub mod application_installation;
pub mod audit;
pub mod capability;
pub mod capability_record;
pub mod catalog;
pub mod changelog;
pub mod columnar_control;
pub mod command_capsule;
pub mod command_record;
pub mod command_segment;
pub mod commit;
pub mod common;
pub mod consumer;
pub mod contract_migration;
pub mod entity_transition;
pub mod metadata;
pub mod segment;
pub mod segment_laws;
