//! Persistence core of a client-records desktop application: a forward-only
//! schema migration engine over an in-memory schema model, and the
//! relational data model (clients, trades, suitability letters) with its
//! integrity rules.

pub mod schema;
pub mod migration;
pub mod model;
pub mod db;
pub mod catalog;
pub mod greeting;
