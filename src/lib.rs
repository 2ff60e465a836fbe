//! A readiness probe for a database-backed service.
//!
//! The database connection outcome is captured once, at startup, in a
//! [`state::HealthState`]. Every request is then answered from that state alone:
//! `GET /health` reports whether the pool was established, any other request
//! is not found.

pub mod response;
pub mod routing;
pub mod state;
