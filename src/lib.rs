//! A dictionary lookup library: records and their compressed encoding, the
//! process-local cache, the tiered lookup protocol, and the migration of
//! legacy dictionary rows into the durable store.

pub mod alert;
pub mod cache;
pub mod cli;
pub mod codec;
pub mod config;
pub mod legacy;
pub mod lookup;
pub mod migrate;
pub mod model;
pub mod provider;
pub mod render;
pub mod store;
pub mod text;
pub mod theme;
pub mod update;
