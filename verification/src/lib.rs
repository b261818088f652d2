//! User-account management behind two wire protocols.
//!
//! The library is the verified core of a small service: a protocol steering
//! decision, two thin front ends (HTTP and RPC), a bounded FIFO command bus
//! with a single worker, and a user service that drives a repository port.
//! Network listeners, the runtime, and the production database adapter live
//! outside the library and only hand plain values in and out.

pub mod commands;
pub mod events;
pub mod grpc;
pub mod http;
pub mod ids;
pub mod interfaces;
pub mod memory;
pub mod models;
pub mod repositories;
pub mod routes;
pub mod services;
pub mod steering;
