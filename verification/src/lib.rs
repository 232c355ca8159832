//! A boundary-crossing string-exchange layer: verified logic for passing
//! textual byte buffers between two independently memory-managed runtimes.
//!
//! The library models the protocol itself — validation, transformation,
//! encoding into a transmissible representation, and exactly-once
//! deallocation — over plain byte values. The raw-pointer plumbing that an
//! actual foreign-function boundary needs lives outside the verified core
//! and hands this library plain values.

pub mod boundary;
pub mod buffer;
pub mod my_app;
pub mod validate;
