//! x86 register state of a VCPU.
use vstd::prelude::*;

verus! {

/// An x86 segment register.
#[derive(Debug, Clone, Copy, PartialEq, Eq)]
pub struct SegmentReg {
    /// Base address of the segment.
    pub base: u64,
    /// Limit of the offsets in the segment.
    pub limit: u32,
    /// 16 bit segment selector: requested privilege level, table indicator and index.
    pub selector: u16,
}

impl SegmentReg {
    /// A segment register whose fields are all zero.
    pub open spec fn zero() -> SegmentReg {
        SegmentReg { base: 0, limit: 0, selector: 0 }
    }
}

impl Default for SegmentReg {
    fn default() -> (r: SegmentReg)
        ensures
            r == SegmentReg::zero(),
    {
        SegmentReg { base: 0, limit: 0, selector: 0 }
    }
}

/// An x86 system table register (GDTR, IDTR).
#[derive(Debug, Clone, Copy, PartialEq, Eq)]
pub struct SystemTableReg {
    /// Linear base address of the table.
    pub base: u64,
    /// 16 bit table limit.
    pub limit: u16,
}

impl SystemTableReg {
    /// A system table register whose fields are all zero.
    pub open spec fn zero() -> SystemTableReg {
        SystemTableReg { base: 0, limit: 0 }
    }
}

impl Default for SystemTableReg {
    fn default() -> (r: SystemTableReg)
        ensures
            r == SystemTableReg::zero(),
    {
        SystemTableReg { base: 0, limit: 0 }
    }
}

/// All x86 registers of a VCPU.
#[derive(Debug, Clone, Copy, PartialEq, Eq)]
pub struct X86Registers {
    /// 8 byte general purpose register.
    pub rax: u64,
    /// 8 byte general purpose register.
    pub rbx: u64,
    /// 8 byte general purpose register.
    pub rcx: u64,
    /// 8 byte general purpose register.
    pub rdx: u64,
    /// 8 byte general purpose register.
    pub rsi: u64,
    /// 8 byte general purpose register.
    pub rdi: u64,
    /// 8 byte general purpose register.
    pub rsp: u64,
    /// 8 byte general purpose register.
    pub rbp: u64,
    /// 8 byte general purpose register.
    pub r8: u64,
    /// 8 byte general purpose register.
    pub r9: u64,
    /// 8 byte general purpose register.
    pub r10: u64,
    /// 8 byte general purpose register.
    pub r11: u64,
    /// 8 byte general purpose register.
    pub r12: u64,
    /// 8 byte general purpose register.
    pub r13: u64,
    /// 8 byte general purpose register.
    pub r14: u64,
    /// 8 byte general purpose register.
    pub r15: u64,
    /// Instruction pointer.
    pub rip: u64,
    /// Flags register.
    pub rflags: u64,
    /// Control flags that modify the basic operation of the processor.
    pub cr0: u64,
    /// Page Fault Linear Address: the address that caused the last page fault.
    pub cr2: u64,
    /// Physical address of the top-level page table of the current task.
    pub cr3: u64,
    /// Controls virtual-8086 support, I/O breakpoints, page size extension and machine-check exceptions.
    pub cr4: u64,
    /// Segment selector of the privilege level 0 code segment (MSR 0x174).
    pub sysenter_cs: u64,
    /// Stack pointer of the privilege level 0 stack (MSR 0x175).
    pub sysenter_esp: u64,
    /// Entry point of the privilege level 0 code (MSR 0x176).
    pub sysenter_eip: u64,
    /// Extended Feature Enable Register MSR (0xc0000080).
    pub msr_efer: u64,
    /// SYSCALL target MSR (0xc0000081).
    pub msr_star: u64,
    /// Long mode SYSCALL target MSR (0xc0000082).
    pub msr_lstar: u64,
    /// Extended Feature Enable Register.
    pub efer: u64,
    /// Advanced Programmable Interrupt Controller base.
    pub apic_base: u64,
    /// Code segment register.
    pub cs: SegmentReg,
    /// Data segment register.
    pub ds: SegmentReg,
    /// Extra segment register.
    pub es: SegmentReg,
    /// Segment pointing to the Thread Information Block of a process.
    pub fs: SegmentReg,
    /// Segment pointing to the Thread Local Storage of a process.
    pub gs: SegmentReg,
    /// Stack segment register.
    pub ss: SegmentReg,
    /// Task register.
    pub tr: SegmentReg,
    /// Local descriptor table register.
    pub ldt: SegmentReg,
    /// Interrupt descriptor table register.
    pub idt: SystemTableReg,
    /// Global descriptor table register.
    pub gdt: SystemTableReg,
}

impl X86Registers {
    /// The register state whose fields are all zero.
    pub open spec fn zero() -> X86Registers {
        X86Registers {
            rax: 0,
            rbx: 0,
            rcx: 0,
            rdx: 0,
            rsi: 0,
            rdi: 0,
            rsp: 0,
            rbp: 0,
            r8: 0,
            r9: 0,
            r10: 0,
            r11: 0,
            r12: 0,
            r13: 0,
            r14: 0,
            r15: 0,
            rip: 0,
            rflags: 0,
            cr0: 0,
            cr2: 0,
            cr3: 0,
            cr4: 0,
            sysenter_cs: 0,
            sysenter_esp: 0,
            sysenter_eip: 0,
            msr_efer: 0,
            msr_star: 0,
            msr_lstar: 0,
            efer: 0,
            apic_base: 0,
            cs: SegmentReg::zero(),
            ds: SegmentReg::zero(),
            es: SegmentReg::zero(),
            fs: SegmentReg::zero(),
            gs: SegmentReg::zero(),
            ss: SegmentReg::zero(),
            tr: SegmentReg::zero(),
            ldt: SegmentReg::zero(),
            idt: SystemTableReg::zero(),
            gdt: SystemTableReg::zero(),
        }
    }
}

impl Default for X86Registers {
    fn default() -> (r: X86Registers)
        ensures
            r == X86Registers::zero(),
    {
        X86Registers {
            rax: 0,
            rbx: 0,
            rcx: 0,
            rdx: 0,
            rsi: 0,
            rdi: 0,
            rsp: 0,
            rbp: 0,
            r8: 0,
            r9: 0,
            r10: 0,
            r11: 0,
            r12: 0,
            r13: 0,
            r14: 0,
            r15: 0,
            rip: 0,
            rflags: 0,
            cr0: 0,
            cr2: 0,
            cr3: 0,
            cr4: 0,
            sysenter_cs: 0,
            sysenter_esp: 0,
            sysenter_eip: 0,
            msr_efer: 0,
            msr_star: 0,
            msr_lstar: 0,
            efer: 0,
            apic_base: 0,
            cs: SegmentReg::default(),
            ds: SegmentReg::default(),
            es: SegmentReg::default(),
            fs: SegmentReg::default(),
            gs: SegmentReg::default(),
            ss: SegmentReg::default(),
            tr: SegmentReg::default(),
            ldt: SegmentReg::default(),
            idt: SystemTableReg::default(),
            gdt: SystemTableReg::default(),
        }
    }
}

/// The register state of a VCPU, by architecture.
#[derive(Debug, Clone, Copy, PartialEq, Eq)]
pub enum Registers {
    X86(X86Registers),
}

} // verus!
