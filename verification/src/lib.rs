//! A verified core for a small HTTP facade over a single upstream "users"
//! resource.
//!
//! The library holds everything about the service that can be stated and
//! proved: the data shapes, field validation for the create payload, the
//! routing table, the two request handlers as pure decision steps, and the
//! classifier that turns every failure into a uniform error envelope.
//! Network I/O, JSON (de)serialization and server bootstrap live outside,
//! in a thin shell that feeds this library plain values.

pub mod error;
pub mod filters;
pub mod handlers;
pub mod models;
pub mod validation;
