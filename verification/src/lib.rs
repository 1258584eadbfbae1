//! Core logic of an audio-streaming worker manager: supervision of a worker
//! subprocess, classification of its log output into typed events, a
//! firewall-reachability probe, the two event-channel disciplines the
//! components publish on, and the lifecycle decisions that glue them to a
//! front end.

pub mod channel;
pub mod classifier;
pub mod config;
pub mod controller;
pub mod endpoints;
pub mod events;
pub mod netinfo;
pub mod probe;
pub mod strutil;
pub mod supervisor;
