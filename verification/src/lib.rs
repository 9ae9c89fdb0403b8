//! A small GraphQL service kit: a schema, an optional SQLite pool and an
//! optional single-page application are put together into a fixed set of
//! HTTP routes.
//!
//! Everything here is decided on plain values and proved; opening sockets,
//! reading files and driving the async runtime is left to the caller.
pub mod reply;
pub mod routes;
pub mod schema;
pub mod server;
pub mod sqlite;

pub use routes::SpaConfig;
pub use schema::{Assembly, SimpleGraphql};
pub use sqlite::{ConfigError, SimpleSqlite};
