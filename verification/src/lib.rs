//! A typed model of pipeline definitions and of the records that travel with
//! them, with a codec between the model and JSON.
//!
//! A pipeline is a graph of nodes. Each node has an identifier, properties
//! that depend on its kind, and source pads that are wired to sink pads of
//! other nodes. [`pipeline::Pipeline`] decodes such a graph from a JSON array
//! and refuses wires that lead nowhere; [`deployments`] reads a pipeline that
//! travels inside a larger record, as an array or as a string that holds the
//! array.
//!
//! Every function states what it returns over a mathematical value of its
//! arguments: a `Pipeline` has a `PipelineView`, a `Json` has a `JsonValue`,
//! and so on. What `serde_json`, `url`, `uuid` and `vec1` compute is taken on
//! trust and goes by a name in the contracts; all else is proved.

pub mod auth;
pub mod commands;
pub mod decode;
pub mod deployments;
pub mod devices;
pub mod error;
pub mod events;
pub mod files;
pub mod gateways;
pub mod json;
pub mod lists;
pub mod models;
pub mod named;
pub mod number;
pub mod pipeline;
pub mod routes;
pub mod streams;
pub mod table;
pub mod text;
pub mod url;
pub mod util;
pub mod uuid;
