//! The PostgreSQL adapter's logic.

pub mod artifacts;
pub mod delivery_state;
pub mod enqueue;
pub mod error;
pub mod finalize;
pub mod hydrate;
pub mod idempotence;
pub mod import;
pub mod lifecycle;
pub mod lifecycle_mutation;
pub mod migration;
pub mod page;
pub mod schema;
pub mod statement;
