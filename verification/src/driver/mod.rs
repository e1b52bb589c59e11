//! VMI drivers: the decision and conversion logic of each hypervisor driver.
pub mod dummy;
pub mod hyperv;
pub mod kvm;
pub mod memflow;
pub mod virtualbox;
pub mod xen;
