//! A small GraphQL query model over a fixed, read-only table of players:
//! the records, the store that holds them, the query resolvers and the
//! decisions of the HTTP surface that serves them.
pub mod http;
pub mod player;
pub mod query;
pub mod store;
