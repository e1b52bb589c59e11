//! A driver that introspects nothing: it answers without a hypervisor.
use vstd::prelude::*;

use crate::api::params::DriverInitParams;
use crate::api::{DriverError, DriverType, Introspectable, PageFrame};

verus! {

/// The maximum physical address that the dummy driver reports: 10 MiB.
pub const DUMMY_MAX_PHYSICAL_ADDR: u64 = 10485760;

/// A driver that introspects nothing.
#[derive(Debug)]
pub struct Dummy {}

impl Dummy {
    /// A dummy driver; the parameters are not read, and it always succeeds.
    pub fn new(_init_params: DriverInitParams) -> (r: Result<Dummy, DriverError>)
        ensures
            r is Ok,
    {
        Ok(Dummy {})
    }
}

impl Introspectable for Dummy {
    /// Reads nothing: the buffer and the count are left as they are.
    fn read_physical(&self, _paddr: u64, _buf: &mut [u8], _bytes_read: &mut u64) -> (r: Result<(), DriverError>)
        ensures
            r is Ok,
            final(_buf)@ == old(_buf)@,
            *final(_bytes_read) == *old(_bytes_read),
    {
        Ok(())
    }

    /// Reading a frame succeeds and leaves the buffer as it is.
    open spec fn frame_read_allows(&self, frame: PageFrame, before: Seq<u8>, after: Seq<u8>, r: Result<(), DriverError>) -> bool {
        r is Ok && after == before
    }

    /// Reads nothing and succeeds: the buffer is left as it is.
    fn read_frame(&self, _frame: PageFrame, _buf: &mut [u8]) -> (r: Result<(), DriverError>)
        ensures
            r is Ok,
            final(_buf)@ == old(_buf)@,
    {
        Ok(())
    }

    fn get_max_physical_addr(&self) -> (r: Result<u64, DriverError>)
        ensures
            r == Ok::<u64, DriverError>(DUMMY_MAX_PHYSICAL_ADDR),
    {
        Ok(1024 * 1024 * 10)
    }

    fn get_driver_type(&self) -> (r: DriverType)
        ensures
            r == DriverType::Dummy,
    {
        DriverType::Dummy
    }
}

} // verus!
