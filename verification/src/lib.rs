//! A todo service as a verified library.
//!
//! The todos live in one table, keyed by a generated id and unique by title.
//! Each request is served by a small state machine: a handler says which
//! statement the storage has to run, and [`handler::resume`] decides, from what
//! the storage answered, what to run next or what to reply. The machine never
//! touches the storage itself, so the same decisions serve a database behind a
//! network and the in-memory [`table::Table`], whose rows give the statements
//! their meaning.

pub mod error;
pub mod guarantees;
pub mod handler;
pub mod ident;
pub mod model;
pub mod order;
pub mod page;
pub mod service;
pub mod storage;
pub mod table;
