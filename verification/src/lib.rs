//! Decision core of the Dovecote outbox adapters for PostgreSQL and SQLite.
//!
//! Nothing here talks to a database. Operations are steps: a step says what to ask
//! next, and a function `after_...` takes the reply and decides what follows.

pub mod attribute;
pub mod claim;
pub mod delivery;
pub mod event;
pub mod extension;
pub mod imported;
pub mod instant;
pub mod json;
pub mod migration;
pub mod paging;
pub mod postgres;
pub mod snapshot;
pub mod sql_error;
pub mod sqlite;
pub mod store;
pub mod text;
pub mod token;
pub mod transition;
pub mod validation;
pub mod value;
