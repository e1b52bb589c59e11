//! Intercepts, events and replies.
use vstd::prelude::*;

use crate::api::Access;

verus! {

/// Types of x86 control registers.
#[derive(Debug, Clone, Copy, PartialEq, Eq, Structural)]
pub enum CrType {
    /// Control flags that modify the basic operation of the processor.
    Cr0,
    /// Physical address of the top-level page table.
    Cr3,
    /// Controls virtual-8086 support, I/O breakpoints, page size extension and machine-check exceptions.
    Cr4,
}

/// Kinds of intercepts.
#[derive(Debug, Clone, Copy, PartialEq, Eq, Structural)]
pub enum InterceptType {
    /// Intercept when the guest changes the value of a control register.
    Cr(CrType),
    /// Intercept when the guest changes the value of a model specific register.
    Msr(u32),
    /// Intercept software breakpoints (int3).
    Breakpoint,
    /// Intercept when the guest accesses a page with rights that it was not granted.
    Pagefault,
}

/// Kinds of events, with their attributes.
#[derive(Debug, Clone, Copy, PartialEq, Eq)]
pub enum EventType {
    /// Control register write.
    Cr {
        /// The control register.
        cr_type: CrType,
        /// Value after the write.
        new: u64,
        /// Value before the write.
        old: u64,
    },
    /// Model specific register write.
    Msr {
        /// The model specific register.
        msr_type: u32,
        /// Value written.
        value: u64,
    },
    /// Software breakpoint (int3).
    Breakpoint {
        /// Guest physical address.
        gpa: u64,
        /// Instruction length; anything other than one implies a malicious guest.
        insn_len: u8,
    },
    /// Page fault caused by the access rights of a page.
    Pagefault {
        /// Guest virtual address.
        gva: u64,
        /// Guest physical address.
        gpa: u64,
        /// The access that caused the fault.
        access: Access,
    },
}

/// An event that the hypervisor reports.
#[derive(Debug, Clone, Copy, PartialEq, Eq)]
pub struct Event {
    /// VCPU on which the event was detected.
    pub vcpu: u16,
    /// Kind of the event.
    pub kind: EventType,
}

/// Reply given to the hypervisor after an event.
#[derive(Debug, Clone, Copy, PartialEq, Eq, Structural)]
pub enum EventReplyType {
    Continue,
}

} // verus!
