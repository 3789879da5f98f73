//! An embedded multi-table key-value store with verified contracts.
//!
//! A store is a catalog of named tables; a table maps primary keys to
//! records; a record maps field names to string values.

pub mod access;
pub mod catalog;
pub mod credit_score;
pub mod descriptors;
pub mod laws;
pub mod model;
pub mod record;
pub mod status;
pub mod store;
pub mod strmap;
pub mod table;
