//! Sessions with a cluster, and the records that its answers are turned into.

pub mod client;
pub mod cluster;
pub mod indices;
pub mod snapshots;
