//! The durable boundary: record messages, envelopes and their failures.

pub mod application;
pub mod application_export;
pub mod application_installation;
pub mod audit;
pub mod bounds;
pub mod bounds_laws;
pub mod capability;
pub mod capability_record;
pub mod capability_laws;
pub mod catalog;
pub mod changelog;
pub mod columnar_control;
pub mod command_capsule;
pub mod command_record;
pub mod command_segment;
pub mod commit;
pub mod commit_laws;
pub mod common;
pub mod consumer;
pub mod contract_migration;
pub mod decision_laws;
pub mod entity_transition;
pub mod envelope;
pub mod envelope_laws;
pub mod error;
pub mod index_migration;
pub mod index_migration_laws;
pub mod message_laws;
pub mod metadata;
pub mod outbox;
pub mod parts;
pub mod projection;
pub mod reading_laws;
pub mod record_set;
pub mod record_set_laws;
pub mod record_type;
pub mod replication;
pub mod reservation;
pub mod reservation_laws;
pub mod round_trip_laws;
pub mod sealing_laws;
pub mod segment;
pub mod segment_bytes;
pub mod segment_bytes_laws;
pub mod segment_capsule;
pub mod segment_laws;
pub mod segment_read_laws;
pub mod segment_message;
pub mod sizing;
pub mod value_laws;
