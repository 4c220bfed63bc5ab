//! Liveness monitoring: entities report heartbeats, a periodic scan finds the
//! ones that went silent for longer than a threshold, reports them, and evicts
//! the reported records.
pub mod clock;
pub mod config;
pub mod ingest;
pub mod scanner;
pub mod store;
