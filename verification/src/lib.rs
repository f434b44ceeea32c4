//! An in-memory key-value store of JSON documents with full-snapshot
//! persistence, stated and proved over a map from keys to documents.

pub mod json;
pub mod shards;
pub mod db;
pub mod rts;
pub mod scheduler;
pub mod laws;
