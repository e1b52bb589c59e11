//! A cross-platform unified virtual machine introspection interface.
//!
//! The library holds the data model of the VMI API (registers, events,
//! driver parameters), physical memory seen as a byte stream, and the
//! decision logic of the hypervisor drivers, each stated in contracts and
//! proved.
use vstd::prelude::*;

pub mod api;
pub mod driver;
pub mod errors;
pub mod init;
pub mod memory;

verus! {

} // verus!
