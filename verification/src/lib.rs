//! Session registry and response normalisation for an Elasticsearch
//! administration client.
//!
//! The crate keeps the set of live cluster sessions, validates connection
//! settings, and turns the loosely shaped JSON that the cluster's admin
//! endpoints answer with into fixed records with stated defaults.

pub mod commands;
pub mod config;
pub mod db;
pub mod defaults;
pub mod elasticsearch;
pub mod error;
pub mod json;
pub mod state;
pub mod text;

pub use state::AppState;
