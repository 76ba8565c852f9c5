//! The rules of a row store kept in an embedded, ordered key-value engine.
//!
//! The engine itself, its files and its threads stay outside. Here are the
//! byte-lexicographic key order, the preparation of a batch for one atomic
//! commit, the compatibility marker that guards a store against a foreign
//! schema, the engine settings of an open, the prefix-bounded scans and
//! what they yield from an ordered store, the gauges of the engine's
//! statistics, and the scripts and addresses of the chain that is indexed.

pub mod keys;
pub mod rows;
pub mod compat;
pub mod options;
pub mod scan;
pub mod store;
pub mod metrics;
pub mod script;
pub mod address;
