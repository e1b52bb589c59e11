//! The KVM driver (KVM-VMI): register, page access and event conversions,
//! and the pause/resume and event-reply state of the driver.
use vstd::prelude::*;

use crate::api::{
    Access, CrType, Event, EventType, InterceptType, Registers, SegmentReg, SystemTableReg,
    X86Registers,
};

verus! {

/// Page access rights as KVM-VMI encodes them.
#[derive(Debug, Clone, Copy, PartialEq, Eq, Structural)]
pub enum KvmPageAccess {
    NIL,
    R,
    W,
    RW,
    X,
    RX,
    WX,
    RWX,
}

impl KvmPageAccess {
    /// The read (bit 0), write (bit 1) and execute (bit 2) rights that the value grants.
    pub open spec fn rights(self) -> u32 {
        match self {
            KvmPageAccess::NIL => 0,
            KvmPageAccess::R => 1,
            KvmPageAccess::W => 2,
            KvmPageAccess::RW => 3,
            KvmPageAccess::X => 4,
            KvmPageAccess::RX => 5,
            KvmPageAccess::WX => 6,
            KvmPageAccess::RWX => 7,
        }
    }

    /// The KVM-VMI value granting the rights of `access`.
    pub fn try_from_access(access: Access) -> (r: Result<KvmPageAccess, KvmDriverError>)
        ensures
            r == Ok::<KvmPageAccess, KvmDriverError>(spec_kvm_access(access.value())),
    {
        let bits = access.bits();
        if bits == 0 {
            Ok(KvmPageAccess::NIL)
        } else if bits == 1 {
            Ok(KvmPageAccess::R)
        } else if bits == 2 {
            Ok(KvmPageAccess::W)
        } else if bits == 3 {
            Ok(KvmPageAccess::RW)
        } else if bits == 4 {
            Ok(KvmPageAccess::X)
        } else if bits == 5 {
            Ok(KvmPageAccess::RX)
        } else if bits == 6 {
            Ok(KvmPageAccess::WX)
        } else if bits == 7 {
            Ok(KvmPageAccess::RWX)
        } else {
            Err(KvmDriverError::InvalidAccess)
        }
    }

    /// The flag set granting the rights of `self`.
    pub fn to_access(self) -> (r: Access)
        ensures
            r.value() == self.rights(),
            r == Access::from_rights(self.rights()),
    {
        let r = match self {
            KvmPageAccess::NIL => Access::NIL(),
            KvmPageAccess::R => Access::R(),
            KvmPageAccess::W => Access::W(),
            KvmPageAccess::RW => Access::RW(),
            KvmPageAccess::X => Access::X(),
            KvmPageAccess::RX => Access::RX(),
            KvmPageAccess::WX => Access::WX(),
            KvmPageAccess::RWX => Access::RWX(),
        };
        proof {
            Access::lemma_from_rights(r);
        }
        r
    }
}

/// Errors of the KVM driver logic.
#[derive(Debug, Clone, Copy, PartialEq, Eq)]
pub enum KvmDriverError {
    /// The access flags have no KVM-VMI equivalent.
    InvalidAccess,
}

/// Control registers as KVM-VMI names them.
#[derive(Debug, Clone, Copy, PartialEq, Eq, Structural)]
pub enum KvmCr {
    Cr0,
    Cr3,
    Cr4,
}

/// Event classes that KVM-VMI can enable or disable on a VCPU.
#[derive(Debug, Clone, Copy, PartialEq, Eq, Structural)]
pub enum KvmInterceptType {
    PauseVCPU,
    Cr,
    Msr,
    Breakpoint,
    Pagefault,
}

/// Events as KVM-VMI reports them.
#[derive(Debug, Clone, Copy, PartialEq, Eq)]
pub enum KvmEventType {
    PauseVCPU,
    Cr { cr_type: KvmCr, new: u64, old: u64 },
    Msr { msr_type: u32, new: u64, old: u64 },
    Breakpoint { gpa: u64, insn_len: u8 },
    Pagefault { gva: u64, gpa: u64, access: KvmPageAccess, view: u16 },
}

/// A KVM segment register: the fields that the driver reads.
#[derive(Debug, Clone, Copy, PartialEq, Eq)]
pub struct KvmSegment {
    pub base: u64,
    pub limit: u32,
    pub selector: u16,
}

/// A KVM descriptor table register: the fields that the driver reads.
#[derive(Debug, Clone, Copy, PartialEq, Eq)]
pub struct KvmDtable {
    pub base: u64,
    pub limit: u16,
}

/// The general purpose registers of a KVM VCPU.
#[derive(Debug, Clone, Copy, PartialEq, Eq)]
pub struct KvmRegs {
    pub rax: u64,
    pub rbx: u64,
    pub rcx: u64,
    pub rdx: u64,
    pub rsi: u64,
    pub rdi: u64,
    pub rsp: u64,
    pub rbp: u64,
    pub r8: u64,
    pub r9: u64,
    pub r10: u64,
    pub r11: u64,
    pub r12: u64,
    pub r13: u64,
    pub r14: u64,
    pub r15: u64,
    pub rip: u64,
    pub rflags: u64,
}

/// The special registers of a KVM VCPU: the fields that the driver reads.
#[derive(Debug, Clone, Copy, PartialEq, Eq)]
pub struct KvmSregs {
    pub cs: KvmSegment,
    pub ds: KvmSegment,
    pub es: KvmSegment,
    pub fs: KvmSegment,
    pub gs: KvmSegment,
    pub ss: KvmSegment,
    pub tr: KvmSegment,
    pub ldt: KvmSegment,
    pub gdt: KvmDtable,
    pub idt: KvmDtable,
    pub cr0: u64,
    pub cr2: u64,
    pub cr3: u64,
    pub cr4: u64,
    pub efer: u64,
    pub apic_base: u64,
}

/// The segment register of a KVM segment.
pub open spec fn spec_segment_from_kvm(s: KvmSegment) -> SegmentReg {
    SegmentReg { base: s.base, limit: s.limit, selector: s.selector }
}

/// The system table register of a KVM descriptor table.
pub open spec fn spec_dtable_from_kvm(d: KvmDtable) -> SystemTableReg {
    SystemTableReg { base: d.base, limit: d.limit }
}

impl SegmentReg {
    /// The segment register of a KVM segment.
    pub fn from_kvm(segment: KvmSegment) -> (r: SegmentReg)
        ensures
            r == spec_segment_from_kvm(segment),
    {
        SegmentReg { base: segment.base, limit: segment.limit, selector: segment.selector }
    }
}

impl SystemTableReg {
    /// The system table register of a KVM descriptor table.
    pub fn from_kvm(dtable: KvmDtable) -> (r: SystemTableReg)
        ensures
            r == spec_dtable_from_kvm(dtable),
    {
        SystemTableReg { base: dtable.base, limit: dtable.limit }
    }
}

/// The register state of a KVM VCPU, from its general purpose registers,
/// its special registers and the data of its model specific registers
/// SYSENTER_CS, SYSENTER_ESP, SYSENTER_EIP, EFER, STAR and LSTAR, in this order.
pub open spec fn spec_kvm_registers(regs: KvmRegs, sregs: KvmSregs, msrs: Seq<u64>) -> X86Registers {
    X86Registers {
        rax: regs.rax,
        rbx: regs.rbx,
        rcx: regs.rcx,
        rdx: regs.rdx,
        rsi: regs.rsi,
        rdi: regs.rdi,
        rsp: regs.rsp,
        rbp: regs.rbp,
        r8: regs.r8,
        r9: regs.r9,
        r10: regs.r10,
        r11: regs.r11,
        r12: regs.r12,
        r13: regs.r13,
        r14: regs.r14,
        r15: regs.r15,
        rip: regs.rip,
        rflags: regs.rflags,
        cr0: sregs.cr0,
        cr2: sregs.cr2,
        cr3: sregs.cr3,
        cr4: sregs.cr4,
        sysenter_cs: msrs[0],
        sysenter_esp: msrs[1],
        sysenter_eip: msrs[2],
        msr_efer: msrs[3],
        msr_star: msrs[4],
        msr_lstar: msrs[5],
        efer: sregs.efer,
        apic_base: sregs.apic_base,
        cs: spec_segment_from_kvm(sregs.cs),
        ds: spec_segment_from_kvm(sregs.ds),
        es: spec_segment_from_kvm(sregs.es),
        fs: spec_segment_from_kvm(sregs.fs),
        gs: spec_segment_from_kvm(sregs.gs),
        ss: spec_segment_from_kvm(sregs.ss),
        tr: spec_segment_from_kvm(sregs.tr),
        ldt: spec_segment_from_kvm(sregs.ldt),
        idt: spec_dtable_from_kvm(sregs.idt),
        gdt: spec_dtable_from_kvm(sregs.gdt),
    }
}

/// The register state of a KVM VCPU. `msrs` holds the data of the model
/// specific registers SYSENTER_CS, SYSENTER_ESP, SYSENTER_EIP, EFER, STAR and
/// LSTAR, in this order.
pub fn kvm_registers(regs: &KvmRegs, sregs: &KvmSregs, msrs: &[u64]) -> (r: Registers)
    requires
        msrs@.len() >= 6,
    ensures
        r == Registers::X86(spec_kvm_registers(*regs, *sregs, msrs@)),
{
    Registers::X86(X86Registers {
            rax: regs.rax,
            rbx: regs.rbx,
            rcx: regs.rcx,
            rdx: regs.rdx,
            rsi: regs.rsi,
            rdi: regs.rdi,
            rsp: regs.rsp,
            rbp: regs.rbp,
            r8: regs.r8,
            r9: regs.r9,
            r10: regs.r10,
            r11: regs.r11,
            r12: regs.r12,
            r13: regs.r13,
            r14: regs.r14,
            r15: regs.r15,
            rip: regs.rip,
            rflags: regs.rflags,
            cr0: sregs.cr0,
            cr2: sregs.cr2,
            cr3: sregs.cr3,
            cr4: sregs.cr4,
            sysenter_cs: msrs[0],
            sysenter_esp: msrs[1],
            sysenter_eip: msrs[2],
            msr_efer: msrs[3],
            msr_star: msrs[4],
            msr_lstar: msrs[5],
            efer: sregs.efer,
            apic_base: sregs.apic_base,
            cs: SegmentReg::from_kvm(sregs.cs),
            ds: SegmentReg::from_kvm(sregs.ds),
            es: SegmentReg::from_kvm(sregs.es),
            fs: SegmentReg::from_kvm(sregs.fs),
            gs: SegmentReg::from_kvm(sregs.gs),
            ss: SegmentReg::from_kvm(sregs.ss),
            tr: SegmentReg::from_kvm(sregs.tr),
            ldt: SegmentReg::from_kvm(sregs.ldt),
            idt: SystemTableReg::from_kvm(sregs.idt),
            gdt: SystemTableReg::from_kvm(sregs.gdt),
    })
}

/// The KVM general purpose registers of an x86 register state.
pub open spec fn spec_kvm_regs_from_x86(r: X86Registers) -> KvmRegs {
    KvmRegs {
        rax: r.rax,
        rbx: r.rbx,
        rcx: r.rcx,
        rdx: r.rdx,
        rsi: r.rsi,
        rdi: r.rdi,
        rsp: r.rsp,
        rbp: r.rbp,
        r8: r.r8,
        r9: r.r9,
        r10: r.r10,
        r11: r.r11,
        r12: r.r12,
        r13: r.r13,
        r14: r.r14,
        r15: r.r15,
        rip: r.rip,
        rflags: r.rflags,
    }
}

/// General purpose registers written to KVM read back unchanged.
pub proof fn lemma_kvm_regs_roundtrip(r: X86Registers, sregs: KvmSregs, msrs: Seq<u64>)
    requires
        msrs.len() >= 6,
    ensures
        ({
            let back = spec_kvm_registers(spec_kvm_regs_from_x86(r), sregs, msrs);
            back.rax == r.rax && back.rbx == r.rbx && back.rcx == r.rcx && back.rdx == r.rdx
                && back.rsi == r.rsi && back.rdi == r.rdi && back.rsp == r.rsp && back.rbp == r.rbp
                && back.r8 == r.r8 && back.r9 == r.r9 && back.r10 == r.r10 && back.r11 == r.r11
                && back.r12 == r.r12 && back.r13 == r.r13 && back.r14 == r.r14 && back.r15 == r.r15
                && back.rip == r.rip && back.rflags == r.rflags
        }),
{
}

impl KvmRegs {
    /// The KVM general purpose registers of an x86 register state.
    pub fn from_x86(register: &X86Registers) -> (r: KvmRegs)
        ensures
            r == spec_kvm_regs_from_x86(*register),
    {
        KvmRegs {
            rax: register.rax,
            rbx: register.rbx,
            rcx: register.rcx,
            rdx: register.rdx,
            rsi: register.rsi,
            rdi: register.rdi,
            rsp: register.rsp,
            rbp: register.rbp,
            r8: register.r8,
            r9: register.r9,
            r10: register.r10,
            r11: register.r11,
            r12: register.r12,
            r13: register.r13,
            r14: register.r14,
            r15: register.r15,
            rip: register.rip,
            rflags: register.rflags,
        }
    }
}


/// The control register of a KVM-VMI control register name.
pub open spec fn spec_cr_from_kvm(cr: KvmCr) -> CrType {
    match cr {
        KvmCr::Cr0 => CrType::Cr0,
        KvmCr::Cr3 => CrType::Cr3,
        KvmCr::Cr4 => CrType::Cr4,
    }
}

/// The KVM-VMI value granting the rights `rights` (read: bit 0, write:
/// bit 1, execute: bit 2) of a flag set.
pub open spec fn spec_kvm_access(rights: u32) -> KvmPageAccess {
    if rights == 0 {
        KvmPageAccess::NIL
    } else if rights == 1 {
        KvmPageAccess::R
    } else if rights == 2 {
        KvmPageAccess::W
    } else if rights == 3 {
        KvmPageAccess::RW
    } else if rights == 4 {
        KvmPageAccess::X
    } else if rights == 5 {
        KvmPageAccess::RX
    } else if rights == 6 {
        KvmPageAccess::WX
    } else {
        KvmPageAccess::RWX
    }
}

/// A KVM-VMI access value grants the rights its name says: read (bit 0)
/// for the names with R, write (bit 1) for those with W, execute (bit 2)
/// for those with X; and the KVM-VMI value of a set of rights grants exactly
/// those rights.
pub proof fn lemma_kvm_access_by_name(k: KvmPageAccess, rights: u32)
    ensures
        k.rights() <= 7,
        (k.rights() % 2 == 1) == (k is R || k is RW || k is RX || k is RWX),
        (k.rights() / 2 % 2 == 1) == (k is W || k is RW || k is WX || k is RWX),
        (k.rights() / 4 == 1) == (k is X || k is RX || k is WX || k is RWX),
        rights <= 7 ==> spec_kvm_access(rights).rights() == rights,
{
}

/// Converting a flag set to KVM-VMI and back gives the same flag set, and
/// converting a KVM-VMI value to a flag set and back gives the same value.
pub proof fn lemma_page_access_roundtrip(a: Access, k: KvmPageAccess)
    requires
        a.value() <= 7,
    ensures
        Access::from_rights(spec_kvm_access(a.value()).rights()) == a,
        spec_kvm_access(Access::from_rights(k.rights()).value()) == k,
{
    Access::lemma_from_rights(a);
    Access::lemma_rights_exist(k.rights());
}

/// The KVM-VMI name of a control register.
pub open spec fn spec_cr_to_kvm(cr: CrType) -> KvmCr {
    match cr {
        CrType::Cr0 => KvmCr::Cr0,
        CrType::Cr3 => KvmCr::Cr3,
        CrType::Cr4 => KvmCr::Cr4,
    }
}

/// Reading a KVM VCPU gives each register from the KVM register of the same
/// name: the general purpose registers from `regs`; the control registers,
/// EFER, the APIC base, the segments and the descriptor tables from `sregs`;
/// SYSENTER_CS, SYSENTER_ESP, SYSENTER_EIP, EFER, STAR and LSTAR from the
/// model specific register data, in that order.
pub proof fn lemma_kvm_registers_by_name(regs: KvmRegs, sregs: KvmSregs, msrs: Seq<u64>)
    requires
        msrs.len() >= 6,
    ensures
        ({
            let x = spec_kvm_registers(regs, sregs, msrs);
            &&& x.rax == regs.rax
            &&& x.rbx == regs.rbx
            &&& x.rcx == regs.rcx
            &&& x.rdx == regs.rdx
            &&& x.rsi == regs.rsi
            &&& x.rdi == regs.rdi
            &&& x.rsp == regs.rsp
            &&& x.rbp == regs.rbp
            &&& x.r8 == regs.r8
            &&& x.r9 == regs.r9
            &&& x.r10 == regs.r10
            &&& x.r11 == regs.r11
            &&& x.r12 == regs.r12
            &&& x.r13 == regs.r13
            &&& x.r14 == regs.r14
            &&& x.r15 == regs.r15
            &&& x.rip == regs.rip
            &&& x.rflags == regs.rflags
            &&& x.cr0 == sregs.cr0
            &&& x.cr2 == sregs.cr2
            &&& x.cr3 == sregs.cr3
            &&& x.cr4 == sregs.cr4
            &&& x.efer == sregs.efer
            &&& x.apic_base == sregs.apic_base
            &&& x.sysenter_cs == msrs[0]
            &&& x.sysenter_esp == msrs[1]
            &&& x.sysenter_eip == msrs[2]
            &&& x.msr_efer == msrs[3]
            &&& x.msr_star == msrs[4]
            &&& x.msr_lstar == msrs[5]
            &&& x.cs.base == sregs.cs.base && x.cs.limit == sregs.cs.limit && x.cs.selector == sregs.cs.selector
            &&& x.ds.base == sregs.ds.base && x.ds.limit == sregs.ds.limit && x.ds.selector == sregs.ds.selector
            &&& x.es.base == sregs.es.base && x.es.limit == sregs.es.limit && x.es.selector == sregs.es.selector
            &&& x.fs.base == sregs.fs.base && x.fs.limit == sregs.fs.limit && x.fs.selector == sregs.fs.selector
            &&& x.gs.base == sregs.gs.base && x.gs.limit == sregs.gs.limit && x.gs.selector == sregs.gs.selector
            &&& x.ss.base == sregs.ss.base && x.ss.limit == sregs.ss.limit && x.ss.selector == sregs.ss.selector
            &&& x.tr.base == sregs.tr.base && x.tr.limit == sregs.tr.limit && x.tr.selector == sregs.tr.selector
            &&& x.ldt.base == sregs.ldt.base && x.ldt.limit == sregs.ldt.limit && x.ldt.selector == sregs.ldt.selector
            &&& x.idt.base == sregs.idt.base && x.idt.limit == sregs.idt.limit
            &&& x.gdt.base == sregs.gdt.base && x.gdt.limit == sregs.gdt.limit
        }),
{
}

/// Writing registers to KVM sets each KVM general purpose register from the
/// register of the same name.
pub proof fn lemma_kvm_regs_from_x86_by_name(r: X86Registers)
    ensures
        ({
            let k = spec_kvm_regs_from_x86(r);
            &&& k.rax == r.rax
            &&& k.rbx == r.rbx
            &&& k.rcx == r.rcx
            &&& k.rdx == r.rdx
            &&& k.rsi == r.rsi
            &&& k.rdi == r.rdi
            &&& k.rsp == r.rsp
            &&& k.rbp == r.rbp
            &&& k.r8 == r.r8
            &&& k.r9 == r.r9
            &&& k.r10 == r.r10
            &&& k.r11 == r.r11
            &&& k.r12 == r.r12
            &&& k.r13 == r.r13
            &&& k.r14 == r.r14
            &&& k.r15 == r.r15
            &&& k.rip == r.rip
            &&& k.rflags == r.rflags
        }),
{
}

/// The KVM-VMI name of a control register is the name of that register, and
/// a KVM-VMI control register name stands for the register of that name: the
/// two conversions are inverse to each other.
pub proof fn lemma_kvm_cr_names()
    ensures
        spec_cr_to_kvm(CrType::Cr0) == KvmCr::Cr0,
        spec_cr_to_kvm(CrType::Cr3) == KvmCr::Cr3,
        spec_cr_to_kvm(CrType::Cr4) == KvmCr::Cr4,
        spec_cr_from_kvm(KvmCr::Cr0) == CrType::Cr0,
        spec_cr_from_kvm(KvmCr::Cr3) == CrType::Cr3,
        spec_cr_from_kvm(KvmCr::Cr4) == CrType::Cr4,
        forall|c: CrType| #[trigger] spec_cr_from_kvm(spec_cr_to_kvm(c)) == c,
        forall|k: KvmCr| #[trigger] spec_cr_to_kvm(spec_cr_from_kvm(k)) == k,
{
    assert forall|c: CrType| #[trigger] spec_cr_from_kvm(spec_cr_to_kvm(c)) == c by {
        match c {
            CrType::Cr0 => {},
            CrType::Cr3 => {},
            CrType::Cr4 => {},
        }
    }
    assert forall|k: KvmCr| #[trigger] spec_cr_to_kvm(spec_cr_from_kvm(k)) == k by {
        match k {
            KvmCr::Cr0 => {},
            KvmCr::Cr3 => {},
            KvmCr::Cr4 => {},
        }
    }
}

/// The event kind of a KVM-VMI event; an MSR event reports the value written.
pub open spec fn spec_event_kind_from_kvm(ev: KvmEventType) -> EventType
    recommends
        !(ev is PauseVCPU),
{
    match ev {
        KvmEventType::Cr { cr_type, new, old } => EventType::Cr { cr_type: spec_cr_from_kvm(cr_type), new, old },
        KvmEventType::Msr { msr_type, new, old } => EventType::Msr { msr_type, value: new },
        KvmEventType::Breakpoint { gpa, insn_len } => EventType::Breakpoint { gpa, insn_len },
        KvmEventType::Pagefault { gva, gpa, access, view } => EventType::Pagefault {
            gva,
            gpa,
            access: Access::from_rights(access.rights()),
        },
        KvmEventType::PauseVCPU => EventType::Breakpoint { gpa: 0, insn_len: 0 },
    }
}

/// A KVM-VMI event becomes the library event of the same kind, each field
/// from the field of the same name: a control register write keeps its
/// register, new and old values; an MSR write keeps its register and reports
/// the value written; a breakpoint keeps its address and instruction length;
/// a page fault keeps its addresses and its access rights.
pub proof fn lemma_kvm_event_by_name(ev: KvmEventType)
    ensures
        ev matches KvmEventType::Cr { cr_type, new, old }
            ==> spec_event_kind_from_kvm(ev) == (EventType::Cr { cr_type: spec_cr_from_kvm(cr_type), new: new, old: old }),
        ev matches KvmEventType::Msr { msr_type, new, old }
            ==> spec_event_kind_from_kvm(ev) == (EventType::Msr { msr_type: msr_type, value: new }),
        ev matches KvmEventType::Breakpoint { gpa, insn_len }
            ==> spec_event_kind_from_kvm(ev) == (EventType::Breakpoint { gpa: gpa, insn_len: insn_len }),
        ev matches KvmEventType::Pagefault { gva, gpa, access, view }
            ==> spec_event_kind_from_kvm(ev) matches EventType::Pagefault { gva: g, gpa: p, access: a }
                && g == gva && p == gpa && a.value() == access.rights(),
{
    if let KvmEventType::Pagefault { access, .. } = ev {
        Access::lemma_rights_exist(access.rights());
    }
}

/// The control register of a KVM-VMI control register name.
pub fn cr_from_kvm(cr: KvmCr) -> (r: CrType)
    ensures
        r == spec_cr_from_kvm(cr),
{
    match cr {
        KvmCr::Cr0 => CrType::Cr0,
        KvmCr::Cr3 => CrType::Cr3,
        KvmCr::Cr4 => CrType::Cr4,
    }
}

/// The event kind of a KVM-VMI event. Pause events belong to the resume
/// handshake and are never handed to a listener.
pub fn event_kind_from_kvm(ev: KvmEventType) -> (r: EventType)
    requires
        !(ev is PauseVCPU),
    ensures
        r == spec_event_kind_from_kvm(ev),
{
    match ev {
        KvmEventType::Cr { cr_type, new, old } => EventType::Cr { cr_type: cr_from_kvm(cr_type), new, old },
        KvmEventType::Msr { msr_type, new, old } => EventType::Msr { msr_type, value: new },
        KvmEventType::Breakpoint { gpa, insn_len } => EventType::Breakpoint { gpa, insn_len },
        KvmEventType::Pagefault { gva, gpa, access, view } => EventType::Pagefault { gva, gpa, access: access.to_access() },
        KvmEventType::PauseVCPU => EventType::Breakpoint { gpa: 0, insn_len: 0 },
    }
}

/// What the driver asks KVM-VMI to do for an intercept request.
#[derive(Debug, Clone, Copy, PartialEq, Eq)]
pub enum KvmControl {
    /// Enable or disable the interception of writes to a control register.
    Cr(KvmCr),
    /// Enable or disable the interception of writes to a model specific register.
    Msr(u32),
    /// Enable or disable a class of events.
    Events(KvmInterceptType),
}

/// The KVM-VMI control that implements an intercept request.
pub fn kvm_control(intercept_type: InterceptType) -> (r: KvmControl)
    ensures
        r == match intercept_type {
            InterceptType::Cr(cr) => KvmControl::Cr(spec_cr_to_kvm(cr)),
            InterceptType::Msr(msr) => KvmControl::Msr(msr),
            InterceptType::Breakpoint => KvmControl::Events(KvmInterceptType::Breakpoint),
            InterceptType::Pagefault => KvmControl::Events(KvmInterceptType::Pagefault),
        },
{
    match intercept_type {
        InterceptType::Cr(cr) => KvmControl::Cr(
            match cr {
                CrType::Cr0 => KvmCr::Cr0,
                CrType::Cr3 => KvmCr::Cr3,
                CrType::Cr4 => KvmCr::Cr4,
            },
        ),
        InterceptType::Msr(msr) => KvmControl::Msr(msr),
        InterceptType::Breakpoint => KvmControl::Events(KvmInterceptType::Breakpoint),
        InterceptType::Pagefault => KvmControl::Events(KvmInterceptType::Pagefault),
    }
}

/// The event classes that the driver enables on every VCPU when it starts,
/// and disables when it closes: control registers, model specific
/// registers and page faults, in this order.
pub fn default_event_intercepts() -> (r: Vec<KvmInterceptType>)
    ensures
        r@ == seq![KvmInterceptType::Cr, KvmInterceptType::Msr, KvmInterceptType::Pagefault],
{
    let mut v: Vec<KvmInterceptType> = Vec::new();
    v.push(KvmInterceptType::Cr);
    v.push(KvmInterceptType::Msr);
    v.push(KvmInterceptType::Pagefault);
    v
}

/// What a pause request does.
#[derive(Debug, Clone, Copy, PartialEq, Eq, Structural)]
pub enum PauseAction {
    /// The VM is already paused: nothing to do.
    AlreadyPaused,
    /// Ask KVM-VMI to pause the VM, then record the pause events to expect.
    Pause,
}

/// What a resume request does.
#[derive(Debug, Clone, Copy, PartialEq, Eq, Structural)]
pub enum ResumeAction {
    /// The VM is not paused: nothing to do.
    AlreadyResumed,
    /// Wait for the next pause event and hand it to `on_resume_event`.
    WaitPauseEvent,
}

/// What to do with an event popped while resuming.
#[derive(Debug, Clone, Copy, PartialEq, Eq, Structural)]
pub enum ResumeStep {
    /// A pause event: reply `Continue` to it.
    ReplyContinue,
    /// Another event arrived while resuming: the driver cannot go on.
    Unexpected,
}

/// What a pause request does when `expected` pause events are awaited.
pub open spec fn spec_pause_action(expected: u32) -> PauseAction {
    if expected > 0 { PauseAction::AlreadyPaused } else { PauseAction::Pause }
}

/// What a resume request does when `expected` pause events are awaited.
pub open spec fn spec_resume_action(expected: u32) -> ResumeAction {
    if expected == 0 { ResumeAction::AlreadyResumed } else { ResumeAction::WaitPauseEvent }
}

/// The driver state after a pause over `vcpu_count` VCPUs: that many pause
/// events are expected, the pending events stay.
pub open spec fn spec_kvm_paused<E>(s: (u32, Seq<Option<E>>), vcpu_count: u32) -> (u32, Seq<Option<E>>) {
    (vcpu_count, s.1)
}

/// The driver state after an event popped while resuming: a pause event
/// counts down the expected pause events; another event changes nothing.
pub open spec fn spec_kvm_resume_event<E>(s: (u32, Seq<Option<E>>), ev: KvmEventType) -> (u32, Seq<Option<E>>) {
    if ev is PauseVCPU {
        ((s.0 - 1) as u32, s.1)
    } else {
        s
    }
}

/// The driver state after `k` pause events popped while resuming.
pub open spec fn spec_kvm_pause_events<E>(s: (u32, Seq<Option<E>>), k: nat) -> (u32, Seq<Option<E>>)
    decreases k,
{
    if k == 0 {
        s
    } else {
        spec_kvm_resume_event(spec_kvm_pause_events(s, (k - 1) as nat), KvmEventType::PauseVCPU)
    }
}

/// The driver state after a listener accepted an event on `vcpu`, with
/// `token` the KVM-VMI event to reply to.
pub open spec fn spec_kvm_listened<E>(s: (u32, Seq<Option<E>>), vcpu: int, token: E) -> (u32, Seq<Option<E>>) {
    (s.0, s.1.update(vcpu, Some(token)))
}

/// The driver state after the event awaiting a reply on `vcpu` was taken.
pub open spec fn spec_kvm_taken<E>(s: (u32, Seq<Option<E>>), vcpu: int) -> (u32, Seq<Option<E>>) {
    (s.0, s.1.update(vcpu, None))
}

proof fn lemma_pause_events_count<E>(s: (u32, Seq<Option<E>>), n: u32, k: nat)
    requires
        k <= n,
    ensures
        spec_kvm_pause_events(spec_kvm_paused(s, n), k) == ((n - k) as u32, s.1),
    decreases k,
{
    if k > 0 {
        lemma_pause_events_count(s, n, (k - 1) as nat);
    }
}

/// The pause/resume cycle of the KVM driver. A running driver (no pause
/// event expected) pauses when asked to, and resuming it does nothing.
/// After a pause over `n` VCPUs, resuming waits for a pause event as long as
/// fewer than `n` came; the `n`-th brings the driver back to the state it
/// was in before the pause, running with the same events pending, so the
/// cycle can be repeated.
pub proof fn lemma_pause_resume_cycle<E>(s: (u32, Seq<Option<E>>), n: u32)
    requires
        s.0 == 0,
    ensures
        spec_pause_action(s.0) == PauseAction::Pause,
        spec_resume_action(s.0) == ResumeAction::AlreadyResumed,
        forall|k: nat| k < n ==> spec_resume_action((#[trigger] spec_kvm_pause_events(spec_kvm_paused(s, n), k)).0) == ResumeAction::WaitPauseEvent,
        spec_kvm_pause_events(spec_kvm_paused(s, n), n as nat) == s,
{
    assert forall|k: nat| k < n implies spec_resume_action((#[trigger] spec_kvm_pause_events(spec_kvm_paused(s, n), k)).0) == ResumeAction::WaitPauseEvent by {
        lemma_pause_events_count(s, n, k);
    }
    lemma_pause_events_count(s, n, n as nat);
}

/// Replying to an event accepted by a listener takes back the KVM-VMI event
/// of that listen, and leaves the driver in the state it was in before the
/// listen: each popped event is answered once.
pub proof fn lemma_listen_then_reply<E>(s: (u32, Seq<Option<E>>), vcpu: int, token: E)
    requires
        0 <= vcpu < s.1.len(),
        s.1[vcpu] is None,
    ensures
        spec_kvm_listened(s, vcpu, token).1[vcpu] == Some(token),
        spec_kvm_taken(spec_kvm_listened(s, vcpu, token), vcpu) == s,
{
    assert(spec_kvm_taken(spec_kvm_listened(s, vcpu, token), vcpu).1 =~= s.1);
}

/// The state of the KVM driver between calls: how many pause events
/// are still expected, and for each VCPU the event awaiting a reply.
pub struct KvmState<E> {
    expect_pause_ev: u32,
    vec_events: Vec<Option<E>>,
}

impl<E> View for KvmState<E> {
    type V = (u32, Seq<Option<E>>);

    /// The pause events still expected, and for each VCPU the event
    /// awaiting a reply.
    closed spec fn view(&self) -> (u32, Seq<Option<E>>) {
        (self.expect_pause_ev, self.vec_events@)
    }
}

impl<E> KvmState<E> {
    /// The number of VCPU pause events still expected; nonzero while the VM is paused.
    pub closed spec fn expected_pause_events(&self) -> u32 {
        self.expect_pause_ev
    }

    /// For each VCPU, the event awaiting a reply.
    pub closed spec fn pending(&self) -> Seq<Option<E>> {
        self.vec_events@
    }

    /// The state of a driver over `vcpu_count` VCPUs: running, no event pending.
    pub fn new(vcpu_count: u16) -> (r: KvmState<E>)
        ensures
            r@ == (0u32, Seq::new(vcpu_count as nat, |i: int| None::<E>)),
            r.expected_pause_events() == 0,
            r.pending().len() == vcpu_count,
            forall|i: int| 0 <= i < vcpu_count ==> r.pending()[i] is None,
    {
        let mut vec_events: Vec<Option<E>> = Vec::new();
        let mut i: u16 = 0;
        while i < vcpu_count
            invariant
                i <= vcpu_count,
                vec_events@.len() == i,
                forall|j: int| 0 <= j < i ==> vec_events@[j] is None,
            decreases vcpu_count - i,
        {
            vec_events.push(None);
            i += 1;
        }
        proof {
            assert(vec_events@ =~= Seq::new(vcpu_count as nat, |i: int| None::<E>));
        }
        KvmState { expect_pause_ev: 0, vec_events }
    }

    /// The number of VCPUs that events can be pending on.
    pub fn vcpu_slots(&self) -> (r: usize)
        ensures
            r == self.pending().len(),
    {
        self.vec_events.len()
    }

    /// Whether an event awaits a reply on `vcpu`.
    pub fn has_pending(&self, vcpu: u16) -> (r: bool)
        ensures
            r == (vcpu < self.pending().len() && self.pending()[vcpu as int] is Some),
    {
        let i = vcpu as usize;
        i < self.vec_events.len() && self.vec_events[i].is_some()
    }

    /// What pausing does: nothing when pause events are still expected.
    pub fn pause_action(&self) -> (r: PauseAction)
        ensures
            r == spec_pause_action(self@.0),
            r == spec_pause_action(self.expected_pause_events()),
    {
        if self.expect_pause_ev > 0 {
            PauseAction::AlreadyPaused
        } else {
            PauseAction::Pause
        }
    }

    /// Record that the VM was paused: one pause event per VCPU is expected.
    pub fn on_paused(&mut self, vcpu_count: u32)
        ensures
            final(self)@ == spec_kvm_paused(old(self)@, vcpu_count),
            final(self).expected_pause_events() == vcpu_count,
            final(self).pending() == old(self).pending(),
    {
        self.expect_pause_ev = vcpu_count;
    }

    /// What resuming does: nothing when no pause event is expected.
    pub fn resume_action(&self) -> (r: ResumeAction)
        ensures
            r == spec_resume_action(self@.0),
            r == spec_resume_action(self.expected_pause_events()),
    {
        if self.expect_pause_ev == 0 {
            ResumeAction::AlreadyResumed
        } else {
            ResumeAction::WaitPauseEvent
        }
    }

    /// Handle an event popped while resuming: a pause event counts down the
    /// expected pause events and is answered with `Continue`.
    pub fn on_resume_event(&mut self, ev: &KvmEventType) -> (r: ResumeStep)
        requires
            old(self).expected_pause_events() > 0,
        ensures
            final(self)@ == spec_kvm_resume_event(old(self)@, *ev),
            *ev is PauseVCPU ==> r == ResumeStep::ReplyContinue
                && final(self).expected_pause_events() == old(self).expected_pause_events() - 1,
            !(*ev is PauseVCPU) ==> r == ResumeStep::Unexpected
                && final(self).expected_pause_events() == old(self).expected_pause_events(),
            final(self).pending() == old(self).pending(),
    {
        match ev {
            KvmEventType::PauseVCPU => {
                self.expect_pause_ev = self.expect_pause_ev - 1;
                ResumeStep::ReplyContinue
            },
            _ => ResumeStep::Unexpected,
        }
    }

    /// Accept an event popped by a listener: remember `token`, the KVM-VMI
    /// event to reply to, for its VCPU, and return the event.
    pub fn listen_event(&mut self, vcpu: u16, ev: KvmEventType, token: E) -> (r: Event)
        requires
            !(ev is PauseVCPU),
            vcpu < old(self).pending().len(),
        ensures
            r == (Event { vcpu, kind: spec_event_kind_from_kvm(ev) }),
            final(self)@ == spec_kvm_listened(old(self)@, vcpu as int, token),
            final(self).pending() == old(self).pending().update(vcpu as int, Some(token)),
            final(self).expected_pause_events() == old(self).expected_pause_events(),
    {
        let kind = event_kind_from_kvm(ev);
        let vcpu_index: usize = vcpu as usize;
        self.vec_events.set(vcpu_index, Some(token));
        Event { vcpu, kind }
    }

    /// Take the KVM-VMI event awaiting a reply on the VCPU of `event`.
    pub fn take_event(&mut self, event: &Event) -> (r: E)
        requires
            event.vcpu < old(self).pending().len(),
            old(self).pending()[event.vcpu as int] is Some,
        ensures
            Some(r) == old(self).pending()[event.vcpu as int],
            final(self)@ == spec_kvm_taken(old(self)@, event.vcpu as int),
            final(self).pending() == old(self).pending().update(event.vcpu as int, None),
            final(self).expected_pause_events() == old(self).expected_pause_events(),
    {
        let vcpu_index: usize = event.vcpu as usize;
        let slot = self.vec_events.remove(vcpu_index);
        self.vec_events.insert(vcpu_index, None);
        assert(self.vec_events@ =~= old(self).vec_events@.update(vcpu_index as int, None));
        match slot {
            Some(e) => e,
            None => vstd::pervasive::unreached(),
        }
    }
}

} // verus!
