//! The backend boundary: the execution context that owns the backend state,
//! typed device buffers, the process-wide allocator slot, and the raw entry
//! points for each algorithm family. Everything above this layer speaks in
//! host values and typed results; everything here follows the backend's
//! calling convention (positional arguments, integer parameter codes, a
//! signed status code per call).

pub mod clustering;
pub mod device_resource;
pub mod device_vector;
pub mod fil;
pub mod linear_regression;
pub mod memory_resource;
