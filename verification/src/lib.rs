//! Verified domain logic of the KD6 open memory service.
pub mod text;
pub mod graph;
pub mod error;
pub mod model;
pub mod scope;
pub mod ids;
pub mod json;
pub mod entry;
pub mod audit;
pub mod store;
pub mod sql;
pub mod search;
pub mod inheritance;
pub mod spaces;
pub mod server;
pub mod mcp;
pub mod embedding;
pub mod rows;
pub mod remote;
