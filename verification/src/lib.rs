//! Magister: a control-loop supervisor that keeps a configured number of GPU
//! compute instances running on a bare-metal rental marketplace.
//!
//! This crate holds the verified core: the offer query builder, the offer
//! filter, the marketplace request/response codecs, and the reconciliation
//! engine that owns the instance table. The I/O shell (HTTP server, HTTP
//! client, configuration file and environment loading) lives outside and
//! talks to this core through plain values.

pub mod config;
pub mod http_handler;
pub mod instance_controller;
pub mod numbers;
pub mod types;
pub mod vast;
