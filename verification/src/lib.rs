//! Host-side marshaling layer for driving device-accelerated numerical
//! algorithms (clustering, linear regression, forest inference) through an
//! opaque compute backend.
//!
//! The algorithms themselves are a black box; what this crate guarantees is
//! the boundary around them: device buffers and execution contexts are owned
//! handles, host/device transfers preserve length and contents exactly,
//! every nonzero backend status surfaces as a typed error naming the failing
//! entry point, and every acquired resource is released exactly once on every
//! exit path. The backend is modeled as explicit in-memory state owned by the
//! execution context, instrumented with create/release counters and fault
//! injection so that each of those guarantees is both proved and testable.

pub mod clustering;
pub mod errors;
pub mod fil;
pub mod linear_regression;
pub mod log_level;
pub mod metric;
pub mod sys;
