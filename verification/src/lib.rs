//! Advisory process-lock service core: the lock lifecycle state machine,
//! the expiry/reconciliation engine, and the parameterized query-construction
//! layer that the persistence operations depend on.

pub mod cleaner;
pub mod clock;
pub mod config;
pub mod env;
pub mod errors;
pub mod ids;
pub mod laws;
pub mod models;
pub mod params;
pub mod query;
pub mod repository;
pub mod status;
pub mod text;
pub mod times;
