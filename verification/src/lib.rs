//! Request handling for a small quotes service: validation of requests, the
//! statements they are turned into, and the status each store outcome maps to.
//!
//! The library never talks to a database or a socket. Each handler is a pair of
//! functions: the first turns a request into a [`repository::Statement`], the
//! second turns what the store answered into the response. The caller runs the
//! statement in between.
//!
//! [`repository`] also says, as a model, what a store does with a statement;
//! [`laws`] proves over that model what a client can rely on, and
//! [`memory::MemoryTable`] is a table in memory that behaves as the model says.

pub mod clock;
pub mod error;
pub mod handlers;
pub mod ident;
pub mod laws;
pub mod memory;
pub mod quote;
pub mod repository;
