//! An in-memory movie catalogue: a store of movie records with unique ids,
//! and the request-handling rules that map catalogue operations to
//! responses, each operation verified against its contract.

pub mod api;
pub mod laws;
pub mod movie;
pub mod store;
mod idgen;
