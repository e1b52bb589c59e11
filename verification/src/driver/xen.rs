//! The Xen driver: conversions between the Xen HVM CPU context and the
//! register state, the handling of vm_event requests, intercept requests,
//! the page chunking of physical memory accesses and the search of a domain
//! by name in xenstore.
use vstd::prelude::*;

use crate::api::params::DriverInitParams;
use crate::api::{CrType, Event, EventType, InterceptType, Registers, SegmentReg, SystemTableReg, X86Registers};

verus! {

/// Errors of the Xen driver.
#[derive(Debug, Clone, PartialEq, Eq)]
pub enum XenDriverError {
    /// The Xen driver requires a VM name parameter.
    MissingVMName,
    /// No xenstore entry names the domain with this name.
    DomainNotFound(String),
    /// Failed to read a xenstore entry: the path and the message of the error.
    XenstoreReadError(String, String),
    /// The vm_event interface version of a request and of the driver differ.
    EventVersionMismatch(u32, u32),
    /// An integer does not fit the target type.
    TryFromIntError,
    /// An integer conversion that cannot fail.
    InfallibleFromIntError,
    /// An I/O error, with its message.
    IoError(String),
    /// A xenctrl error, with its message.
    XcError(String),
    /// A UNIX error, with its message.
    NixError(String),
    /// A xenforeignmemory error, with its message.
    ForeignMemoryError(String),
}

/// The HVM CPU context of a Xen VCPU: the fields that the driver reads and writes.
#[derive(Debug, Clone, Copy, PartialEq, Eq)]
pub struct XenHvmCpu {
    pub rax: u64,
    pub rbx: u64,
    pub rcx: u64,
    pub rdx: u64,
    pub rsi: u64,
    pub rdi: u64,
    pub rsp: u64,
    pub rbp: u64,
    pub r8: u64,
    pub r9: u64,
    pub r10: u64,
    pub r11: u64,
    pub r12: u64,
    pub r13: u64,
    pub r14: u64,
    pub r15: u64,
    pub rip: u64,
    pub rflags: u64,
    pub cr0: u64,
    pub cr2: u64,
    pub cr3: u64,
    pub cr4: u64,
    pub sysenter_cs: u64,
    pub sysenter_esp: u64,
    pub sysenter_eip: u64,
    pub msr_efer: u64,
    pub msr_star: u64,
    pub msr_lstar: u64,
    pub cs_base: u64,
    pub cs_limit: u32,
    pub cs_sel: u32,
    pub ds_base: u64,
    pub ds_limit: u32,
    pub ds_sel: u32,
    pub es_base: u64,
    pub es_limit: u32,
    pub es_sel: u32,
    pub fs_base: u64,
    pub fs_limit: u32,
    pub fs_sel: u32,
    pub gs_base: u64,
    pub gs_limit: u32,
    pub gs_sel: u32,
    pub ss_base: u64,
    pub ss_limit: u32,
    pub ss_sel: u32,
    pub tr_base: u64,
    pub tr_limit: u32,
    pub tr_sel: u32,
    pub idtr_base: u64,
    pub idtr_limit: u32,
    pub gdtr_base: u64,
    pub gdtr_limit: u32,
}

/// Whether every segment selector of the context fits 16 bits.
pub open spec fn xen_selectors_fit(cpu: XenHvmCpu) -> bool {
    cpu.cs_sel <= u16::MAX && cpu.ds_sel <= u16::MAX && cpu.es_sel <= u16::MAX && cpu.fs_sel <= u16::MAX && cpu.gs_sel <= u16::MAX && cpu.ss_sel <= u16::MAX && cpu.tr_sel <= u16::MAX
}

/// The register state of a Xen HVM CPU context. EFER, the APIC base and the
/// LDT are not in the context and read as zero; the IDT and GDT limits keep
/// their low 16 bits.
pub open spec fn spec_xen_registers(cpu: XenHvmCpu) -> X86Registers {
    X86Registers {
        rax: cpu.rax,
        rbx: cpu.rbx,
        rcx: cpu.rcx,
        rdx: cpu.rdx,
        rsi: cpu.rsi,
        rdi: cpu.rdi,
        rsp: cpu.rsp,
        rbp: cpu.rbp,
        r8: cpu.r8,
        r9: cpu.r9,
        r10: cpu.r10,
        r11: cpu.r11,
        r12: cpu.r12,
        r13: cpu.r13,
        r14: cpu.r14,
        r15: cpu.r15,
        rip: cpu.rip,
        rflags: cpu.rflags,
        cr0: cpu.cr0,
        cr2: cpu.cr2,
        cr3: cpu.cr3,
        cr4: cpu.cr4,
        sysenter_cs: cpu.sysenter_cs,
        sysenter_esp: cpu.sysenter_esp,
        sysenter_eip: cpu.sysenter_eip,
        msr_efer: cpu.msr_efer,
        msr_star: cpu.msr_star,
        msr_lstar: cpu.msr_lstar,
        efer: 0,
        apic_base: 0,
        cs: SegmentReg { base: cpu.cs_base, limit: cpu.cs_limit, selector: cpu.cs_sel as u16 },
        ds: SegmentReg { base: cpu.ds_base, limit: cpu.ds_limit, selector: cpu.ds_sel as u16 },
        es: SegmentReg { base: cpu.es_base, limit: cpu.es_limit, selector: cpu.es_sel as u16 },
        fs: SegmentReg { base: cpu.fs_base, limit: cpu.fs_limit, selector: cpu.fs_sel as u16 },
        gs: SegmentReg { base: cpu.gs_base, limit: cpu.gs_limit, selector: cpu.gs_sel as u16 },
        ss: SegmentReg { base: cpu.ss_base, limit: cpu.ss_limit, selector: cpu.ss_sel as u16 },
        tr: SegmentReg { base: cpu.tr_base, limit: cpu.tr_limit, selector: cpu.tr_sel as u16 },
        ldt: SegmentReg::zero(),
        idt: SystemTableReg { base: cpu.idtr_base, limit: cpu.idtr_limit as u16 },
        gdt: SystemTableReg { base: cpu.gdtr_base, limit: cpu.gdtr_limit as u16 },
    }
}

/// The register state of a Xen HVM CPU context; fails with
/// `TryFromIntError` when a segment selector does not fit 16 bits.
pub fn xen_registers(cpu: &XenHvmCpu) -> (r: Result<Registers, XenDriverError>)
    ensures
        xen_selectors_fit(*cpu) ==> r == Ok::<Registers, XenDriverError>(Registers::X86(spec_xen_registers(*cpu))),
        !xen_selectors_fit(*cpu) ==> r == Err::<Registers, XenDriverError>(XenDriverError::TryFromIntError),
{
    let cs_sel: u16 = match u16::try_from(cpu.cs_sel) {
        Ok(v) => v,
        Err(_) => {
            return Err(XenDriverError::TryFromIntError);
        },
    };
    let ds_sel: u16 = match u16::try_from(cpu.ds_sel) {
        Ok(v) => v,
        Err(_) => {
            return Err(XenDriverError::TryFromIntError);
        },
    };
    let es_sel: u16 = match u16::try_from(cpu.es_sel) {
        Ok(v) => v,
        Err(_) => {
            return Err(XenDriverError::TryFromIntError);
        },
    };
    let fs_sel: u16 = match u16::try_from(cpu.fs_sel) {
        Ok(v) => v,
        Err(_) => {
            return Err(XenDriverError::TryFromIntError);
        },
    };
    let gs_sel: u16 = match u16::try_from(cpu.gs_sel) {
        Ok(v) => v,
        Err(_) => {
            return Err(XenDriverError::TryFromIntError);
        },
    };
    let ss_sel: u16 = match u16::try_from(cpu.ss_sel) {
        Ok(v) => v,
        Err(_) => {
            return Err(XenDriverError::TryFromIntError);
        },
    };
    let tr_sel: u16 = match u16::try_from(cpu.tr_sel) {
        Ok(v) => v,
        Err(_) => {
            return Err(XenDriverError::TryFromIntError);
        },
    };
    Ok(Registers::X86(X86Registers {
        rax: cpu.rax,
        rbx: cpu.rbx,
        rcx: cpu.rcx,
        rdx: cpu.rdx,
        rsi: cpu.rsi,
        rdi: cpu.rdi,
        rsp: cpu.rsp,
        rbp: cpu.rbp,
        r8: cpu.r8,
        r9: cpu.r9,
        r10: cpu.r10,
        r11: cpu.r11,
        r12: cpu.r12,
        r13: cpu.r13,
        r14: cpu.r14,
        r15: cpu.r15,
        rip: cpu.rip,
        rflags: cpu.rflags,
        cr0: cpu.cr0,
        cr2: cpu.cr2,
        cr3: cpu.cr3,
        cr4: cpu.cr4,
        sysenter_cs: cpu.sysenter_cs,
        sysenter_esp: cpu.sysenter_esp,
        sysenter_eip: cpu.sysenter_eip,
        msr_efer: cpu.msr_efer,
        msr_star: cpu.msr_star,
        msr_lstar: cpu.msr_lstar,
        efer: 0,
        apic_base: 0,
        cs: SegmentReg { base: cpu.cs_base, limit: cpu.cs_limit, selector: cs_sel },
        ds: SegmentReg { base: cpu.ds_base, limit: cpu.ds_limit, selector: ds_sel },
        es: SegmentReg { base: cpu.es_base, limit: cpu.es_limit, selector: es_sel },
        fs: SegmentReg { base: cpu.fs_base, limit: cpu.fs_limit, selector: fs_sel },
        gs: SegmentReg { base: cpu.gs_base, limit: cpu.gs_limit, selector: gs_sel },
        ss: SegmentReg { base: cpu.ss_base, limit: cpu.ss_limit, selector: ss_sel },
        tr: SegmentReg { base: cpu.tr_base, limit: cpu.tr_limit, selector: tr_sel },
        ldt: SegmentReg::default(),
        idt: SystemTableReg { base: cpu.idtr_base, limit: cpu.idtr_limit as u16 },
        gdt: SystemTableReg { base: cpu.gdtr_base, limit: cpu.gdtr_limit as u16 },
    }))
}

/// The context `cpu` with the registers of `r` written into it. The IDT and
/// GDT registers of the context are left as they are.
pub open spec fn spec_xen_apply(cpu: XenHvmCpu, r: X86Registers) -> XenHvmCpu {
    XenHvmCpu {
        rax: r.rax,
        rbx: r.rbx,
        rcx: r.rcx,
        rdx: r.rdx,
        rsi: r.rsi,
        rdi: r.rdi,
        rsp: r.rsp,
        rbp: r.rbp,
        r8: r.r8,
        r9: r.r9,
        r10: r.r10,
        r11: r.r11,
        r12: r.r12,
        r13: r.r13,
        r14: r.r14,
        r15: r.r15,
        rip: r.rip,
        rflags: r.rflags,
        cr0: r.cr0,
        cr2: r.cr2,
        cr3: r.cr3,
        cr4: r.cr4,
        sysenter_cs: r.sysenter_cs,
        sysenter_esp: r.sysenter_esp,
        sysenter_eip: r.sysenter_eip,
        msr_efer: r.msr_efer,
        msr_star: r.msr_star,
        msr_lstar: r.msr_lstar,
        cs_base: r.cs.base,
        cs_limit: r.cs.limit,
        cs_sel: r.cs.selector as u32,
        ds_base: r.ds.base,
        ds_limit: r.ds.limit,
        ds_sel: r.ds.selector as u32,
        es_base: r.es.base,
        es_limit: r.es.limit,
        es_sel: r.es.selector as u32,
        fs_base: r.fs.base,
        fs_limit: r.fs.limit,
        fs_sel: r.fs.selector as u32,
        gs_base: r.gs.base,
        gs_limit: r.gs.limit,
        gs_sel: r.gs.selector as u32,
        ss_base: r.ss.base,
        ss_limit: r.ss.limit,
        ss_sel: r.ss.selector as u32,
        tr_base: r.tr.base,
        tr_limit: r.tr.limit,
        tr_sel: r.tr.selector as u32,
        idtr_base: cpu.idtr_base,
        idtr_limit: cpu.idtr_limit,
        gdtr_base: cpu.gdtr_base,
        gdtr_limit: cpu.gdtr_limit,
    }
}

/// Write the registers of `reg` into the context `cpu`.
pub fn xen_apply_registers(cpu: &mut XenHvmCpu, reg: &Registers)
    ensures
        match *reg {
            Registers::X86(r) => *final(cpu) == spec_xen_apply(*old(cpu), r),
        },
{
    match reg {
        Registers::X86(x86_registers) => {
            cpu.rax = x86_registers.rax;
            cpu.rbx = x86_registers.rbx;
            cpu.rcx = x86_registers.rcx;
            cpu.rdx = x86_registers.rdx;
            cpu.rsi = x86_registers.rsi;
            cpu.rdi = x86_registers.rdi;
            cpu.rsp = x86_registers.rsp;
            cpu.rbp = x86_registers.rbp;
            cpu.r8 = x86_registers.r8;
            cpu.r9 = x86_registers.r9;
            cpu.r10 = x86_registers.r10;
            cpu.r11 = x86_registers.r11;
            cpu.r12 = x86_registers.r12;
            cpu.r13 = x86_registers.r13;
            cpu.r14 = x86_registers.r14;
            cpu.r15 = x86_registers.r15;
            cpu.rip = x86_registers.rip;
            cpu.rflags = x86_registers.rflags;
            cpu.cr0 = x86_registers.cr0;
            cpu.cr2 = x86_registers.cr2;
            cpu.cr3 = x86_registers.cr3;
            cpu.cr4 = x86_registers.cr4;
            cpu.sysenter_cs = x86_registers.sysenter_cs;
            cpu.sysenter_esp = x86_registers.sysenter_esp;
            cpu.sysenter_eip = x86_registers.sysenter_eip;
            cpu.msr_efer = x86_registers.msr_efer;
            cpu.msr_star = x86_registers.msr_star;
            cpu.msr_lstar = x86_registers.msr_lstar;
            cpu.cs_base = x86_registers.cs.base;
            cpu.cs_limit = x86_registers.cs.limit;
            cpu.cs_sel = x86_registers.cs.selector as u32;
            cpu.ds_base = x86_registers.ds.base;
            cpu.ds_limit = x86_registers.ds.limit;
            cpu.ds_sel = x86_registers.ds.selector as u32;
            cpu.es_base = x86_registers.es.base;
            cpu.es_limit = x86_registers.es.limit;
            cpu.es_sel = x86_registers.es.selector as u32;
            cpu.fs_base = x86_registers.fs.base;
            cpu.fs_limit = x86_registers.fs.limit;
            cpu.fs_sel = x86_registers.fs.selector as u32;
            cpu.gs_base = x86_registers.gs.base;
            cpu.gs_limit = x86_registers.gs.limit;
            cpu.gs_sel = x86_registers.gs.selector as u32;
            cpu.ss_base = x86_registers.ss.base;
            cpu.ss_limit = x86_registers.ss.limit;
            cpu.ss_sel = x86_registers.ss.selector as u32;
            cpu.tr_base = x86_registers.tr.base;
            cpu.tr_limit = x86_registers.tr.limit;
            cpu.tr_sel = x86_registers.tr.selector as u32;
        },
    }
}

/// Registers written into a context read back unchanged, but for what the
/// context does not hold: EFER, the APIC base and the LDT read as zero, and
/// the IDT and GDT come from the context.
pub proof fn lemma_xen_registers_roundtrip(cpu: XenHvmCpu, r: X86Registers)
    ensures
        xen_selectors_fit(spec_xen_apply(cpu, r)),
        spec_xen_registers(spec_xen_apply(cpu, r)) == (X86Registers {
            efer: 0,
            apic_base: 0,
            ldt: SegmentReg::zero(),
            idt: SystemTableReg { base: cpu.idtr_base, limit: cpu.idtr_limit as u16 },
            gdt: SystemTableReg { base: cpu.gdtr_base, limit: cpu.gdtr_limit as u16 },
            ..r
        }),
{
}


/// Xen control register names.
#[derive(Debug, Clone, Copy, PartialEq, Eq, Structural)]
pub enum XenCr {
    Cr0,
    Cr3,
    Cr4,
}

/// vm_event kinds as xenctrl decodes them: the fields that the driver reads.
#[derive(Debug, Clone, Copy, PartialEq, Eq)]
pub enum XenEventType {
    Cr { cr_type: XenCr, new: u64, old: u64 },
    Msr { msr_type: u32, value: u64 },
    Breakpoint { gfn: u64, gpa: u64, insn_len: u8 },
    Pagefault { gva: u64, gpa: u64, view: u16 },
    Singlestep { gfn: u64 },
}

/// Reading a Xen context gives each register from the context field of the
/// same name: the general purpose, control and model specific registers,
/// and the base, limit and selector of each segment. EFER, the APIC base
/// and the LDT read as zero; the IDT and GDT limits keep their low 16 bits.
pub proof fn lemma_xen_registers_by_name(cpu: XenHvmCpu)
    requires
        xen_selectors_fit(cpu),
    ensures
        ({
            let x = spec_xen_registers(cpu);
            &&& x.rax == cpu.rax
            &&& x.rbx == cpu.rbx
            &&& x.rcx == cpu.rcx
            &&& x.rdx == cpu.rdx
            &&& x.rsi == cpu.rsi
            &&& x.rdi == cpu.rdi
            &&& x.rsp == cpu.rsp
            &&& x.rbp == cpu.rbp
            &&& x.r8 == cpu.r8
            &&& x.r9 == cpu.r9
            &&& x.r10 == cpu.r10
            &&& x.r11 == cpu.r11
            &&& x.r12 == cpu.r12
            &&& x.r13 == cpu.r13
            &&& x.r14 == cpu.r14
            &&& x.r15 == cpu.r15
            &&& x.rip == cpu.rip
            &&& x.rflags == cpu.rflags
            &&& x.cr0 == cpu.cr0
            &&& x.cr2 == cpu.cr2
            &&& x.cr3 == cpu.cr3
            &&& x.cr4 == cpu.cr4
            &&& x.sysenter_cs == cpu.sysenter_cs
            &&& x.sysenter_esp == cpu.sysenter_esp
            &&& x.sysenter_eip == cpu.sysenter_eip
            &&& x.msr_efer == cpu.msr_efer
            &&& x.msr_star == cpu.msr_star
            &&& x.msr_lstar == cpu.msr_lstar
            &&& x.cs.base == cpu.cs_base && x.cs.limit == cpu.cs_limit && x.cs.selector == cpu.cs_sel
            &&& x.ds.base == cpu.ds_base && x.ds.limit == cpu.ds_limit && x.ds.selector == cpu.ds_sel
            &&& x.es.base == cpu.es_base && x.es.limit == cpu.es_limit && x.es.selector == cpu.es_sel
            &&& x.fs.base == cpu.fs_base && x.fs.limit == cpu.fs_limit && x.fs.selector == cpu.fs_sel
            &&& x.gs.base == cpu.gs_base && x.gs.limit == cpu.gs_limit && x.gs.selector == cpu.gs_sel
            &&& x.ss.base == cpu.ss_base && x.ss.limit == cpu.ss_limit && x.ss.selector == cpu.ss_sel
            &&& x.tr.base == cpu.tr_base && x.tr.limit == cpu.tr_limit && x.tr.selector == cpu.tr_sel
            &&& x.efer == 0 && x.apic_base == 0
            &&& x.ldt == SegmentReg::zero()
            &&& x.idt.base == cpu.idtr_base && x.idt.limit == cpu.idtr_limit % 0x1_0000
            &&& x.gdt.base == cpu.gdtr_base && x.gdt.limit == cpu.gdtr_limit % 0x1_0000
        }),
{
    let idtr_limit = cpu.idtr_limit;
    let gdtr_limit = cpu.gdtr_limit;
    assert(idtr_limit as u16 == idtr_limit % 0x1_0000) by (bit_vector);
    assert(gdtr_limit as u16 == gdtr_limit % 0x1_0000) by (bit_vector);
}

/// Writing registers into a Xen context sets each context field from the
/// register of the same name, and leaves the IDT and GDT fields as they were.
pub proof fn lemma_xen_apply_by_name(cpu: XenHvmCpu, r: X86Registers)
    ensures
        ({
            let c = spec_xen_apply(cpu, r);
            &&& c.rax == r.rax
            &&& c.rbx == r.rbx
            &&& c.rcx == r.rcx
            &&& c.rdx == r.rdx
            &&& c.rsi == r.rsi
            &&& c.rdi == r.rdi
            &&& c.rsp == r.rsp
            &&& c.rbp == r.rbp
            &&& c.r8 == r.r8
            &&& c.r9 == r.r9
            &&& c.r10 == r.r10
            &&& c.r11 == r.r11
            &&& c.r12 == r.r12
            &&& c.r13 == r.r13
            &&& c.r14 == r.r14
            &&& c.r15 == r.r15
            &&& c.rip == r.rip
            &&& c.rflags == r.rflags
            &&& c.cr0 == r.cr0
            &&& c.cr2 == r.cr2
            &&& c.cr3 == r.cr3
            &&& c.cr4 == r.cr4
            &&& c.sysenter_cs == r.sysenter_cs
            &&& c.sysenter_esp == r.sysenter_esp
            &&& c.sysenter_eip == r.sysenter_eip
            &&& c.msr_efer == r.msr_efer
            &&& c.msr_star == r.msr_star
            &&& c.msr_lstar == r.msr_lstar
            &&& c.cs_base == r.cs.base && c.cs_limit == r.cs.limit && c.cs_sel == r.cs.selector
            &&& c.ds_base == r.ds.base && c.ds_limit == r.ds.limit && c.ds_sel == r.ds.selector
            &&& c.es_base == r.es.base && c.es_limit == r.es.limit && c.es_sel == r.es.selector
            &&& c.fs_base == r.fs.base && c.fs_limit == r.fs.limit && c.fs_sel == r.fs.selector
            &&& c.gs_base == r.gs.base && c.gs_limit == r.gs.limit && c.gs_sel == r.gs.selector
            &&& c.ss_base == r.ss.base && c.ss_limit == r.ss.limit && c.ss_sel == r.ss.selector
            &&& c.tr_base == r.tr.base && c.tr_limit == r.tr.limit && c.tr_sel == r.tr.selector
            &&& c.idtr_base == cpu.idtr_base && c.idtr_limit == cpu.idtr_limit
            &&& c.gdtr_base == cpu.gdtr_base && c.gdtr_limit == cpu.gdtr_limit
        }),
{
}

/// The Xen name of a control register is the name of that register, and a
/// Xen control register name stands for the register of that name: the two
/// conversions are inverse to each other.
pub proof fn lemma_xen_cr_names()
    ensures
        spec_cr_to_xen(CrType::Cr0) == XenCr::Cr0,
        spec_cr_to_xen(CrType::Cr3) == XenCr::Cr3,
        spec_cr_to_xen(CrType::Cr4) == XenCr::Cr4,
        spec_cr_from_xen(XenCr::Cr0) == CrType::Cr0,
        spec_cr_from_xen(XenCr::Cr3) == CrType::Cr3,
        spec_cr_from_xen(XenCr::Cr4) == CrType::Cr4,
        forall|c: CrType| #[trigger] spec_cr_from_xen(spec_cr_to_xen(c)) == c,
        forall|x: XenCr| #[trigger] spec_cr_to_xen(spec_cr_from_xen(x)) == x,
{
    assert forall|c: CrType| #[trigger] spec_cr_from_xen(spec_cr_to_xen(c)) == c by {
        match c {
            CrType::Cr0 => {},
            CrType::Cr3 => {},
            CrType::Cr4 => {},
        }
    }
    assert forall|x: XenCr| #[trigger] spec_cr_to_xen(spec_cr_from_xen(x)) == x by {
        match x {
            XenCr::Cr0 => {},
            XenCr::Cr3 => {},
            XenCr::Cr4 => {},
        }
    }
}

/// Whether the driver turns events of this kind into library events; the
/// others are not supported.
pub open spec fn xen_event_supported(kind: XenEventType) -> bool {
    kind is Cr || kind is Msr || kind is Breakpoint
}

/// The control register of a Xen control register name.
pub open spec fn spec_cr_from_xen(cr: XenCr) -> CrType {
    match cr {
        XenCr::Cr0 => CrType::Cr0,
        XenCr::Cr3 => CrType::Cr3,
        XenCr::Cr4 => CrType::Cr4,
    }
}

/// The Xen name of a control register.
pub open spec fn spec_cr_to_xen(cr: CrType) -> XenCr {
    match cr {
        CrType::Cr0 => XenCr::Cr0,
        CrType::Cr3 => XenCr::Cr3,
        CrType::Cr4 => XenCr::Cr4,
    }
}

/// The event kind of a supported vm_event; a breakpoint reports no guest
/// physical address (0).
pub open spec fn spec_event_kind_from_xen(kind: XenEventType) -> EventType {
    match kind {
        XenEventType::Cr { cr_type, new, old } => EventType::Cr { cr_type: spec_cr_from_xen(cr_type), new, old },
        XenEventType::Msr { msr_type, value } => EventType::Msr { msr_type, value },
        XenEventType::Breakpoint { insn_len, .. } => EventType::Breakpoint { gpa: 0, insn_len },
        _ => EventType::Breakpoint { gpa: 0, insn_len: 0 },
    }
}

/// A supported vm_event becomes the library event of the same kind, each
/// field from the field of the same name: a control register write keeps its
/// register, new and old values; an MSR write keeps its register and value; a
/// breakpoint keeps its instruction length and reports no address.
pub proof fn lemma_xen_event_by_name(kind: XenEventType)
    ensures
        kind matches XenEventType::Cr { cr_type, new, old }
            ==> spec_event_kind_from_xen(kind) == (EventType::Cr { cr_type: spec_cr_from_xen(cr_type), new: new, old: old }),
        kind matches XenEventType::Msr { msr_type, value }
            ==> spec_event_kind_from_xen(kind) == (EventType::Msr { msr_type: msr_type, value: value }),
        kind matches XenEventType::Breakpoint { gfn, gpa, insn_len }
            ==> spec_event_kind_from_xen(kind) == (EventType::Breakpoint { gpa: 0, insn_len: insn_len }),
{
}

/// The response that the driver puts on the vm_event ring for a request.
#[derive(Debug, Clone, Copy, PartialEq, Eq)]
pub struct XenVmEventResponse {
    pub reason: u32,
    pub version: u32,
    pub vcpu_id: u32,
    pub flags: u32,
}

/// Check the vm_event interface version of a request against the version
/// that the driver speaks.
pub fn check_event_version(version: u32, interface_version: u32) -> (r: Result<(), XenDriverError>)
    ensures
        version == interface_version <==> r is Ok,
        version != interface_version ==> r == Err::<(), XenDriverError>(XenDriverError::EventVersionMismatch(version, interface_version)),
{
    if version != interface_version {
        Err(XenDriverError::EventVersionMismatch(version, interface_version))
    } else {
        Ok(())
    }
}

/// The event of a vm_event request and the response to put back on the
/// ring: the response keeps the reason and the VCPU of the request, carries
/// the interface version of the driver, and keeps only the `paused_flag`
/// bit of the request's flags. Fails when the VCPU id does not fit 16 bits.
pub fn xen_event(
    kind: XenEventType,
    vcpu_id: u32,
    reason: u32,
    flags: u32,
    interface_version: u32,
    paused_flag: u32,
) -> (r: Result<(Event, XenVmEventResponse), XenDriverError>)
    requires
        xen_event_supported(kind),
    ensures
        vcpu_id <= u16::MAX ==> r == Ok::<(Event, XenVmEventResponse), XenDriverError>((
            Event { vcpu: vcpu_id as u16, kind: spec_event_kind_from_xen(kind) },
            XenVmEventResponse { reason, version: interface_version, vcpu_id, flags: flags & paused_flag },
        )),
        vcpu_id > u16::MAX ==> r == Err::<(Event, XenVmEventResponse), XenDriverError>(XenDriverError::TryFromIntError),
{
    let event_kind = match kind {
        XenEventType::Cr { cr_type, new, old } => EventType::Cr {
            cr_type: match cr_type {
                XenCr::Cr0 => CrType::Cr0,
                XenCr::Cr3 => CrType::Cr3,
                XenCr::Cr4 => CrType::Cr4,
            },
            new,
            old,
        },
        XenEventType::Msr { msr_type, value } => EventType::Msr { msr_type, value },
        XenEventType::Breakpoint { insn_len, .. } => EventType::Breakpoint { gpa: 0, insn_len },
        _ => vstd::pervasive::unreached(),
    };
    let vcpu: u16 = match u16::try_from(vcpu_id) {
        Ok(v) => v,
        Err(_) => {
            return Err(XenDriverError::TryFromIntError);
        },
    };
    let rsp = XenVmEventResponse { reason, version: interface_version, vcpu_id, flags: flags & paused_flag };
    Ok((Event { vcpu, kind: event_kind }, rsp))
}

/// The event channel port to unmask after a poll: none when no port is
/// pending (-1); fails when the pending port is another negative number.
pub fn port_to_unmask(pending_port: i32) -> (r: Result<Option<u32>, XenDriverError>)
    ensures
        pending_port == -1 ==> r == Ok::<Option<u32>, XenDriverError>(None),
        pending_port >= 0 ==> r == Ok::<Option<u32>, XenDriverError>(Some(pending_port as u32)),
        pending_port < -1 ==> r == Err::<Option<u32>, XenDriverError>(XenDriverError::TryFromIntError),
{
    if pending_port == -1 {
        Ok(None)
    } else {
        match u32::try_from(pending_port) {
            Ok(p) => Ok(Some(p)),
            Err(_) => Err(XenDriverError::TryFromIntError),
        }
    }
}

/// Whether a vm_event request is to be read from the ring: the poll saw
/// activity, the pending port is the port bound to the domain, and the ring
/// holds unconsumed requests.
pub fn ring_request_available(poll_result: i32, bind_port: i32, pending_port: i32, ring_has_requests: bool) -> (r: bool)
    ensures
        r == (poll_result > 0 && bind_port == pending_port && ring_has_requests),
{
    poll_result > 0 && bind_port == pending_port && ring_has_requests
}

/// The poll timeout of a listen timeout; fails when it does not fit an `i32`.
pub fn poll_timeout(timeout: u32) -> (r: Result<i32, XenDriverError>)
    ensures
        timeout <= i32::MAX ==> r == Ok::<i32, XenDriverError>(timeout as i32),
        timeout > i32::MAX ==> r == Err::<i32, XenDriverError>(XenDriverError::TryFromIntError),
{
    if timeout <= i32::MAX as u32 {
        Ok(timeout as i32)
    } else {
        Err(XenDriverError::TryFromIntError)
    }
}

/// A monitor operation of xenctrl.
#[derive(Debug, Clone, Copy, PartialEq, Eq)]
pub enum XenMonitorRequest {
    /// Monitor writes to a control register.
    WriteCtrlreg { index: XenCr, enable: bool, sync: bool, onchangeonly: bool },
    /// Monitor writes to a model specific register.
    MovToMsr { msr: u32, enable: bool },
    /// Monitor software breakpoints.
    SoftwareBreakpoint { enable: bool },
}

/// The monitor operation that implements an intercept request; control
/// register writes are monitored synchronously and only when the value
/// changes. Page fault intercepts are not supported by the driver.
pub fn xen_monitor_request(intercept_type: InterceptType, enabled: bool) -> (r: XenMonitorRequest)
    requires
        !(intercept_type is Pagefault),
    ensures
        r == match intercept_type {
            InterceptType::Cr(cr) => XenMonitorRequest::WriteCtrlreg { index: spec_cr_to_xen(cr), enable: enabled, sync: true, onchangeonly: true },
            InterceptType::Msr(msr) => XenMonitorRequest::MovToMsr { msr, enable: enabled },
            _ => XenMonitorRequest::SoftwareBreakpoint { enable: enabled },
        },
{
    match intercept_type {
        InterceptType::Cr(micro_cr_type) => {
            let xen_cr = match micro_cr_type {
                CrType::Cr0 => XenCr::Cr0,
                CrType::Cr3 => XenCr::Cr3,
                CrType::Cr4 => XenCr::Cr4,
            };
            XenMonitorRequest::WriteCtrlreg { index: xen_cr, enable: enabled, sync: true, onchangeonly: true }
        },
        InterceptType::Msr(micro_msr_type) => XenMonitorRequest::MovToMsr { msr: micro_msr_type, enable: enabled },
        InterceptType::Breakpoint => XenMonitorRequest::SoftwareBreakpoint { enable: enabled },
        InterceptType::Pagefault => vstd::pervasive::unreached(),
    }
}

/// The number of VCPUs of a domain whose highest VCPU id is `max_vcpu_id`;
/// fails when it does not fit 16 bits.
pub fn xen_vcpu_count(max_vcpu_id: u32) -> (r: Result<u16, XenDriverError>)
    requires
        max_vcpu_id < u32::MAX,
    ensures
        max_vcpu_id + 1 <= u16::MAX ==> r == Ok::<u16, XenDriverError>((max_vcpu_id + 1) as u16),
        max_vcpu_id + 1 > u16::MAX ==> r == Err::<u16, XenDriverError>(XenDriverError::TryFromIntError),
{
    match u16::try_from(max_vcpu_id + 1) {
        Ok(v) => Ok(v),
        Err(_) => Err(XenDriverError::TryFromIntError),
    }
}


/// One page-sized piece of a physical memory access: the frame, the offset
/// in the frame, the offset in the caller's buffer and the length.
#[derive(Debug, Clone, Copy, PartialEq, Eq)]
pub struct XenPageChunk {
    pub gfn: u64,
    pub page_offset: u64,
    pub buf_offset: u64,
    pub len: u64,
}

/// The chunks of an access to `count` bytes at `paddr`, from byte
/// `buf_offset` of the buffer on: each chunk runs from its address to the
/// end of its page, or to the end of the access if that comes first.
pub open spec fn spec_page_chunks(paddr: int, buf_offset: int, count: int) -> Seq<XenPageChunk>
    decreases count,
{
    if count <= 0 {
        Seq::empty()
    } else {
        let cur = paddr + buf_offset;
        let off = cur % 4096;
        let len = if off + count > 4096 { 4096 - off } else { count };
        seq![XenPageChunk { gfn: (cur / 4096) as u64, page_offset: off as u64, buf_offset: buf_offset as u64, len: len as u64 }]
            + spec_page_chunks(paddr, buf_offset + len, count - len)
    }
}

/// The chunks of an access cover it exactly: they follow each other in the
/// buffer from `buf_offset` to `buf_offset + count`, none is empty, each
/// stays within one page, and each starts at the frame and offset of its
/// address.
pub proof fn lemma_page_chunks_partition(paddr: int, buf_offset: int, count: int)
    requires
        0 <= paddr,
        0 <= buf_offset,
        0 <= count,
        paddr + buf_offset + count <= 0x1_0000_0000_0000_0000,
        buf_offset + count < 0x1_0000_0000_0000_0000,
    ensures
        ({
            let c = spec_page_chunks(paddr, buf_offset, count);
            &&& (count > 0 <==> c.len() > 0)
            &&& c.len() > 0 ==> c[0].buf_offset == buf_offset
            &&& c.len() > 0 ==> c.last().buf_offset + c.last().len == buf_offset + count
            &&& forall|i: int| 0 <= i < c.len() ==> {
                &&& 1 <= #[trigger] c[i].len
                &&& c[i].page_offset + c[i].len <= 4096
                &&& c[i].gfn * 4096 + c[i].page_offset == paddr + c[i].buf_offset
            }
            &&& forall|i: int| 0 <= i < c.len() - 1 ==> #[trigger] c[i + 1].buf_offset == c[i].buf_offset + c[i].len
        }),
    decreases count,
{
    if count > 0 {
        let cur = paddr + buf_offset;
        let off = cur % 4096;
        let len = if off + count > 4096 { 4096 - off } else { count };
        lemma_page_chunks_partition(paddr, buf_offset + len, count - len);
        let rest = spec_page_chunks(paddr, buf_offset + len, count - len);
        let head = XenPageChunk { gfn: (cur / 4096) as u64, page_offset: off as u64, buf_offset: buf_offset as u64, len: len as u64 };
        let c = spec_page_chunks(paddr, buf_offset, count);
        assert(c == seq![head] + rest);
        assert(c[0] == head);
        assert((cur / 4096) * 4096 + cur % 4096 == cur) by (nonlinear_arith)
            requires
                cur >= 0,
        ;
        assert(0 <= cur / 4096 < 0x1_0000_0000_0000_0000) by (nonlinear_arith)
            requires
                0 <= cur < 0x1_0000_0000_0000_0000,
        ;
        assert(head.gfn * 4096 + head.page_offset == cur);
        assert forall|i: int| 0 <= i < c.len() implies {
            &&& 1 <= #[trigger] c[i].len
            &&& c[i].page_offset + c[i].len <= 4096
            &&& c[i].gfn * 4096 + c[i].page_offset == paddr + c[i].buf_offset
        } by {
            if i > 0 {
                assert(c[i] == rest[i - 1]);
            }
        }
        assert forall|i: int| 0 <= i < c.len() - 1 implies #[trigger] c[i + 1].buf_offset == c[i].buf_offset + c[i].len by {
            assert(c[i + 1] == rest[i]);
            if i > 0 {
                assert(c[i] == rest[i - 1]);
                let j = i - 1;
                assert(rest[j + 1].buf_offset == rest[j].buf_offset + rest[j].len);
            } else {
                assert(rest[0].buf_offset == buf_offset + len);
            }
        }
        if rest.len() > 0 {
            assert(c.last() == rest.last());
        } else {
            assert(count - len == 0);
        }
    }
}

/// `dst` with the `len` bytes from `dst_at` on replaced by the bytes of
/// `src` from `src_at` on.
pub open spec fn spec_copy_range(dst: Seq<u8>, dst_at: int, src: Seq<u8>, src_at: int, len: int) -> Seq<u8> {
    Seq::new(dst.len(), |i: int| if dst_at <= i < dst_at + len { src[src_at + i - dst_at] } else { dst[i] })
}

fn copy_bytes(dst: &mut [u8], dst_at: usize, src: &[u8], src_at: usize, len: usize)
    requires
        dst_at + len <= old(dst)@.len(),
        src_at + len <= src@.len(),
    ensures
        final(dst)@ == spec_copy_range(old(dst)@, dst_at as int, src@, src_at as int, len as int),
{
    let dlen = dst.len();
    let slen = src.len();
    let mut i: usize = 0;
    while i < len
        invariant
            i <= len,
            dlen == dst@.len(),
            slen == src@.len(),
            dst_at + len <= dlen,
            src_at + len <= slen,
            dst@ == spec_copy_range(old(dst)@, dst_at as int, src@, src_at as int, i as int),
        decreases len - i,
    {
        dst[dst_at + i] = src[src_at + i];
        i += 1;
        assert(dst@ =~= spec_copy_range(old(dst)@, dst_at as int, src@, src_at as int, i as int));
    }
}

/// Copy the bytes of `chunk` from its mapped page `page` into the caller's
/// buffer, at the chunk's offset in the buffer, and count them in
/// `bytes_read`.
pub fn xen_read_chunk(buf: &mut [u8], chunk: &XenPageChunk, page: &[u8], bytes_read: &mut u64)
    requires
        chunk.buf_offset + chunk.len <= old(buf)@.len(),
        chunk.page_offset + chunk.len <= page@.len(),
        *old(bytes_read) + chunk.len <= u64::MAX,
    ensures
        final(buf)@ == spec_copy_range(old(buf)@, chunk.buf_offset as int, page@, chunk.page_offset as int, chunk.len as int),
        *final(bytes_read) == *old(bytes_read) + chunk.len,
{
    let buf_len: usize = buf.len();
    let page_len: usize = page.len();
    assert(chunk.buf_offset + chunk.len <= buf_len && chunk.page_offset + chunk.len <= page_len);
    copy_bytes(buf, chunk.buf_offset as usize, page, chunk.page_offset as usize, chunk.len as usize);
    *bytes_read = *bytes_read + chunk.len;
}

/// Copy the bytes of `chunk` from the caller's buffer into its mapped page
/// `page`, at the chunk's offset in the page.
pub fn xen_write_chunk(page: &mut [u8], chunk: &XenPageChunk, buf: &[u8])
    requires
        chunk.page_offset + chunk.len <= old(page)@.len(),
        chunk.buf_offset + chunk.len <= buf@.len(),
    ensures
        final(page)@ == spec_copy_range(old(page)@, chunk.page_offset as int, buf@, chunk.buf_offset as int, chunk.len as int),
{
    let buf_len: usize = buf.len();
    let page_len: usize = page.len();
    assert(chunk.buf_offset + chunk.len <= buf_len && chunk.page_offset + chunk.len <= page_len);
    copy_bytes(page, chunk.page_offset as usize, buf, chunk.buf_offset as usize, chunk.len as usize);
}

/// Split an access to `count` bytes of physical memory at `paddr` into
/// chunks that each stay within one page, in address order.
pub fn xen_page_chunks(paddr: u64, count: u64) -> (r: Vec<XenPageChunk>)
    requires
        paddr + count <= 0x1_0000_0000_0000_0000,
        count < 0x8000_0000_0000_0000,
    ensures
        r@ == spec_page_chunks(paddr as int, 0, count as int),
{
    let mut chunks: Vec<XenPageChunk> = Vec::new();
    let mut count_mut: u64 = count;
    let mut buf_offset: u64 = 0;
    while count_mut > 0
        invariant
            buf_offset + count_mut == count,
            paddr + count <= 0x1_0000_0000_0000_0000,
            count < 0x8000_0000_0000_0000,
            chunks@ + spec_page_chunks(paddr as int, buf_offset as int, count_mut as int) == spec_page_chunks(paddr as int, 0, count as int),
        decreases count_mut,
    {
        let cur_paddr: u64 = paddr + buf_offset;
        let gfn = cur_paddr >> 12u64;
        let page_offset = 0xfffu64 & cur_paddr;
        assert(cur_paddr >> 12u64 == cur_paddr / 4096) by (bit_vector);
        assert(0xfffu64 & cur_paddr == cur_paddr % 4096) by (bit_vector);
        let read_len = if page_offset + count_mut > 4096 {
            4096 - page_offset
        } else {
            count_mut
        };
        let chunk = XenPageChunk { gfn, page_offset, buf_offset, len: read_len };
        let ghost rest = spec_page_chunks(paddr as int, (buf_offset + read_len) as int, (count_mut - read_len) as int);
        assert(spec_page_chunks(paddr as int, buf_offset as int, count_mut as int) == seq![chunk] + rest);
        let ghost before = chunks@;
        chunks.push(chunk);
        assert(chunks@ + rest =~= before + (seq![chunk] + rest));
        count_mut = count_mut - read_len;
        buf_offset = buf_offset + read_len;
    }
    assert(spec_page_chunks(paddr as int, buf_offset as int, 0) =~= Seq::<XenPageChunk>::empty());
    assert(chunks@ =~= chunks@ + Seq::<XenPageChunk>::empty());
    chunks
}


/// The outcome of reading the name of a domain in xenstore.
#[derive(Debug, Clone, PartialEq, Eq)]
pub enum XenstoreRead {
    /// The name of the domain.
    Name(String),
    /// The reader may not see this domain.
    PermissionDenied,
    /// The read failed, with the message of the error.
    Failed(String),
}

/// The xenstore path of the name of domain `domid`.
pub open spec fn spec_name_path(domid: Seq<char>) -> Seq<char> {
    seq!['/', 'l', 'o', 'c', 'a', 'l', '/', 'd', 'o', 'm', 'a', 'i', 'n', '/'] + domid + seq!['/', 'n', 'a', 'm', 'e']
}

/// The xenstore path of the name of domain `domid`.
pub fn name_path(domid: &str) -> (r: String)
    ensures
        r@ == spec_name_path(domid@),
{
    let mut path = "/local/domain/".to_owned();
    path.append(domid);
    path.append("/name");
    proof {
        reveal_strlit("/local/domain/");
        reveal_strlit("/name");
        assert(path@ =~= spec_name_path(domid@));
    }
    path
}

/// The search of a domain by name among the entries of the xenstore
/// directory `/local/domain`.
pub struct XenDomainSearch {
    domain_name: String,
    found: Option<u32>,
}

impl XenDomainSearch {
    /// The name of the domain searched for.
    pub closed spec fn target(&self) -> Seq<char> {
        self.domain_name@
    }

    /// The id of the last entry found so far whose name is the target.
    pub closed spec fn found(&self) -> Option<u32> {
        self.found
    }

    /// A search for the VM name of `init_params`; fails with `MissingVMName`
    /// when no VM name is given.
    pub fn from_init_params(init_params: DriverInitParams) -> (r: Result<XenDomainSearch, XenDriverError>)
        ensures
            init_params.common is None ==> r == Err::<XenDomainSearch, XenDriverError>(XenDriverError::MissingVMName),
            init_params.common matches Some(c) ==> r matches Ok(search) && search.target() == c.vm_name@ && search.found() is None,
    {
        match init_params.common {
            Some(common) => Ok(XenDomainSearch::new(common.vm_name)),
            None => Err(XenDriverError::MissingVMName),
        }
    }

    /// A search for `domain_name`, with nothing found yet.
    pub fn new(domain_name: String) -> (r: XenDomainSearch)
        ensures
            r.target() == domain_name@,
            r.found() is None,
    {
        XenDomainSearch { domain_name, found: None }
    }

    /// Look at the name read for the entry `domid`: an entry that the reader
    /// may not see is skipped; a failed read ends the search with
    /// `XenstoreReadError` on the name path of the entry. Returns whether the
    /// entry names the domain searched for; its id is then recorded with
    /// `record_match`.
    pub fn observe(&self, domid: &str, read: XenstoreRead) -> (r: Result<bool, XenDriverError>)
        ensures
            read is PermissionDenied ==> r == Ok::<bool, XenDriverError>(false),
            read matches XenstoreRead::Failed(msg) ==> r matches Err(XenDriverError::XenstoreReadError(path, m))
                && path@ == spec_name_path(domid@) && m == msg,
            read matches XenstoreRead::Name(candidate) ==> r == Ok::<bool, XenDriverError>(candidate@ == self.target()),
    {
        match read {
            XenstoreRead::PermissionDenied => Ok(false),
            XenstoreRead::Failed(msg) => Err(XenDriverError::XenstoreReadError(name_path(domid), msg)),
            XenstoreRead::Name(candidate) => Ok(candidate == self.domain_name),
        }
    }

    /// Record that the entry `domid` names the domain; a later match replaces an earlier one.
    pub fn record_match(&mut self, domid: u32)
        ensures
            final(self).found() == Some(domid),
            final(self).target() == old(self).target(),
    {
        self.found = Some(domid);
    }

    /// The id of the domain, if an entry named it.
    pub fn domid(&self) -> (r: Option<u32>)
        ensures
            r == self.found(),
    {
        self.found
    }

    /// How the search ends: the id of the last entry that named the domain,
    /// or `DomainNotFound` with the name searched for when none did, so that
    /// the next driver can be tried.
    pub fn finish(&self) -> (r: Result<u32, XenDriverError>)
        ensures
            self.found() matches Some(d) ==> r == Ok::<u32, XenDriverError>(d),
            self.found() is None ==> (r matches Err(XenDriverError::DomainNotFound(name)) && name@ == self.target()),
    {
        match self.found {
            Some(d) => Ok(d),
            None => Err(XenDriverError::DomainNotFound(self.domain_name.clone())),
        }
    }
}

} // verus!
