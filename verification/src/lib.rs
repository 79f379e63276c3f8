//! The transaction command model of a partitioned, multi-version key-value
//! store: the catalogue of protocol operations, the data they carry, and the
//! facts a scheduler derives from them.

pub mod commands;
pub mod context;
pub mod key;
pub mod laws;
pub mod metrics;
pub mod mutation;
pub mod options;
pub mod order;
pub mod render;
pub mod text;
pub mod timestamp;
pub mod weight;
