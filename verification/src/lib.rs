//! The persistence core of a note-taking application: notes and folders in
//! an embedded database, with a full-text index over the notes that every
//! write keeps in step.
//!
//! [`Store`] owns the one connection. Its methods are verified against the
//! contracts of the module `engine`. Those say nothing of what a database
//! holds, which is not the connection's to fix. They keep the record of
//! what the connection was asked and what it answered, so that a contract
//! of the store says exactly which statements reached the engine, in which
//! order and with which values, and what the store made of each answer.
//!
//! - `model`: notes and folders, and their mathematical views.
//! - `error`: the failures, and the sentence for each.
//! - `rules`: what the store decides without the database.
//! - `search`: free text to full-text query, and the cap on results.
//! - `statements`: the statements and the values bound to them.
//! - `engine`, `clock`, `text`: what is taken on trust of the database
//!   engine, of the clock and of the standard library's character classes.
//! - `store`: the handle and its operations.

pub mod clock;
pub mod engine;
pub mod error;
pub mod model;
pub mod rules;
pub mod search;
pub mod statements;
pub mod store;
pub mod text;

pub use crate::error::{Invalid, StoreError};
pub use crate::model::{Folder, Note};
pub use crate::search::sanitize_fts_query;
pub use crate::store::Store;
