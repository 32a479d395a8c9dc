//! Layered safety enforcement for an autonomous apiary monitoring and
//! actuation device.
//!
//! The crate has three tightly coupled parts: policy compilation, versioning
//! and signing; the on-device deterministic control loop (band and bioload
//! classification, quota gating, a latching fail-safe, actuation caps); and
//! the control-plane enforcer with multi-party governance gating and a
//! hash-chained audit trail.

pub mod sensor;
pub mod band;
pub mod actuator;
pub mod timebase;
pub mod limits;
pub mod config;
pub mod controller;
pub mod runtime;
pub mod textfmt;
pub mod hashing;
pub mod model;
pub mod compiler;
pub mod bundle;
pub mod signing;
pub mod aln_export;
pub mod request;
pub mod policy;
pub mod state;
pub mod enforcer;
pub mod multisig;
pub mod logging;
pub mod governance;
pub mod bridge;
pub mod scenario;
pub mod backend;
