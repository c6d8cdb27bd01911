//! Graph model, configuration rules, Cypher statement building and event
//! normalisation for Endpoint Security telemetry stored in a property graph.

pub mod text;
pub mod writer;
pub mod config;
pub mod cypher;
pub mod error;
pub mod esf;
pub mod events;
pub mod ingest;
pub mod json;
pub mod model;
pub mod store;
