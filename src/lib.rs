//! Immutable, shareable byte buffers behind reference-counted handles.
//!
//! [`RCHandle`] owns one unit of a shared object's strong count: creating a
//! handle starts the count at one, cloning adds a unit, dropping releases one,
//! and the object is freed with its last unit. [`Data`] is the handle over a
//! block of bytes, with a read-only view of them and equality defined by those
//! bytes.
pub mod data;
pub mod handle;

pub use data::{decimal, is_c_string, zeros, Data, DataBlock};
pub use handle::{is_sole_count, RCHandle};
