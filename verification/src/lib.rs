//! A minimal personal journal library.
//!
//! The library holds the verified core of a one-page journaling web
//! application: whitespace trimming and validation of entry bodies, a model
//! of the single-table store with its schema migration, and the HTML
//! rendering of the page shell, the entry form, and transient flash notices.
//! The surrounding binary does the HTTP serving and the database I/O and
//! hands plain values in and out.

pub mod gateway;
pub mod render;
pub mod store;
pub mod text;
