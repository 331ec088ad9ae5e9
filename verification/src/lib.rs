//! Verified storage-side rules of a deterministic contract database.

pub mod bytes;
pub mod codec;
pub mod functions;
pub mod ids;
pub mod keys;
pub mod key_laws;
pub mod limits;
pub mod migration;
pub mod migration_laws;
pub mod outbox;
pub mod outbox_laws;
pub mod owned_snapshot;
pub mod page;
pub mod plan;
pub mod projection;
pub mod projection_schema;
pub mod protobuf;
pub mod records;
pub mod result_laws;
pub mod stored;
pub mod value_error;
pub mod wire;
pub mod write_set;
