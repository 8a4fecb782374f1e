//! The schema check of the SQLite adapter.

pub mod catalog;
pub mod check;
pub mod laws;
pub mod normalization;
pub mod source;
