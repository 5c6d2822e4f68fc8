//! Register-level access to PCI configuration space through two parallel
//! backends: the legacy Configuration Access Mechanism (CAM), which drives
//! the fixed address/data port pair, and the sysfs backend, which resolves a
//! device to its per-device directory and performs positional reads and
//! writes on its binary config file.
//!
//! Both backends expose the same surface: open a device by bus, device and
//! function, enumerate present devices, query vendor and device identity,
//! and read or write registers of width 8, 16, 32 or 64 bits at a byte
//! offset.

pub mod bytes;
pub mod cam;
pub mod error;
pub mod hex;
pub mod sys;
pub mod sysfs;

pub use error::Error;
