//! The VirtualBox driver (FDP): which registers are read, in which order,
//! and how they make up the register state.
use vstd::prelude::*;

use crate::api::{Registers, SegmentReg, SystemTableReg, X86Registers};

verus! {

/// The VCPU count that the VirtualBox driver reports: FDP offers no way to
/// query it.
pub const VBOX_VCPU_COUNT: u16 = 1;

/// Registers that FDP reads.
#[allow(non_camel_case_types)]
#[derive(Debug, Clone, Copy, PartialEq, Eq, Structural)]
pub enum VBoxRegister {
    RAX,
    RBX,
    RCX,
    RDX,
    RSI,
    RDI,
    RBP,
    RSP,
    R8,
    R9,
    R10,
    R11,
    R12,
    R13,
    R14,
    R15,
    RIP,
    CR0,
    CR2,
    CR3,
    CR4,
    CS,
    DS,
    ES,
    FS,
    GS,
    SS,
    GDTR_BASE,
    GDTR_LIMIT,
    IDTR_BASE,
    IDTR_LIMIT,
}

/// The registers that make up the register state, in the order in which
/// they are read.
pub open spec fn spec_vbox_register_reads() -> Seq<VBoxRegister> {
    seq![VBoxRegister::RAX, VBoxRegister::RBX, VBoxRegister::RCX, VBoxRegister::RDX, VBoxRegister::RSI, VBoxRegister::RDI, VBoxRegister::RBP, VBoxRegister::RSP, VBoxRegister::R8, VBoxRegister::R9, VBoxRegister::R10, VBoxRegister::R11, VBoxRegister::R12, VBoxRegister::R13, VBoxRegister::R14, VBoxRegister::R15, VBoxRegister::RIP, VBoxRegister::CR0, VBoxRegister::CR2, VBoxRegister::CR3, VBoxRegister::CR4, VBoxRegister::CS, VBoxRegister::DS, VBoxRegister::ES, VBoxRegister::FS, VBoxRegister::GS, VBoxRegister::SS, VBoxRegister::GDTR_BASE, VBoxRegister::GDTR_LIMIT, VBoxRegister::IDTR_BASE, VBoxRegister::IDTR_LIMIT]
}

/// The registers that make up the register state, in the order in which
/// they are read.
pub fn vbox_register_reads() -> (r: Vec<VBoxRegister>)
    ensures
        r@ == spec_vbox_register_reads(),
{
    let mut v: Vec<VBoxRegister> = Vec::new();
    v.push(VBoxRegister::RAX);
    v.push(VBoxRegister::RBX);
    v.push(VBoxRegister::RCX);
    v.push(VBoxRegister::RDX);
    v.push(VBoxRegister::RSI);
    v.push(VBoxRegister::RDI);
    v.push(VBoxRegister::RBP);
    v.push(VBoxRegister::RSP);
    v.push(VBoxRegister::R8);
    v.push(VBoxRegister::R9);
    v.push(VBoxRegister::R10);
    v.push(VBoxRegister::R11);
    v.push(VBoxRegister::R12);
    v.push(VBoxRegister::R13);
    v.push(VBoxRegister::R14);
    v.push(VBoxRegister::R15);
    v.push(VBoxRegister::RIP);
    v.push(VBoxRegister::CR0);
    v.push(VBoxRegister::CR2);
    v.push(VBoxRegister::CR3);
    v.push(VBoxRegister::CR4);
    v.push(VBoxRegister::CS);
    v.push(VBoxRegister::DS);
    v.push(VBoxRegister::ES);
    v.push(VBoxRegister::FS);
    v.push(VBoxRegister::GS);
    v.push(VBoxRegister::SS);
    v.push(VBoxRegister::GDTR_BASE);
    v.push(VBoxRegister::GDTR_LIMIT);
    v.push(VBoxRegister::IDTR_BASE);
    v.push(VBoxRegister::IDTR_LIMIT);
    proof {
        assert(v@ =~= spec_vbox_register_reads());
    }
    v
}

/// The register state made of the values read for `vbox_register_reads`,
/// in that order. Segment registers carry their base only; the GDT and IDT
/// limits keep their low 16 bits; what FDP does not read is zero.
pub open spec fn spec_vbox_registers(values: Seq<u64>) -> X86Registers {
    X86Registers {
        rax: values[0],
        rbx: values[1],
        rcx: values[2],
        rdx: values[3],
        rsi: values[4],
        rdi: values[5],
        rsp: values[7],
        rbp: values[6],
        r8: values[8],
        r9: values[9],
        r10: values[10],
        r11: values[11],
        r12: values[12],
        r13: values[13],
        r14: values[14],
        r15: values[15],
        rip: values[16],
        rflags: 0,
        cr0: values[17],
        cr2: values[18],
        cr3: values[19],
        cr4: values[20],
        sysenter_cs: 0,
        sysenter_esp: 0,
        sysenter_eip: 0,
        msr_efer: 0,
        msr_star: 0,
        msr_lstar: 0,
        efer: 0,
        apic_base: 0,
        cs: SegmentReg { base: values[21], limit: 0, selector: 0 },
        ds: SegmentReg { base: values[22], limit: 0, selector: 0 },
        es: SegmentReg { base: values[23], limit: 0, selector: 0 },
        fs: SegmentReg { base: values[24], limit: 0, selector: 0 },
        gs: SegmentReg { base: values[25], limit: 0, selector: 0 },
        ss: SegmentReg { base: values[26], limit: 0, selector: 0 },
        tr: SegmentReg::zero(),
        ldt: SegmentReg::zero(),
        idt: SystemTableReg { base: values[29], limit: values[30] as u16 },
        gdt: SystemTableReg { base: values[27], limit: values[28] as u16 },
    }
}

/// The value that a register state holds for the FDP register `reg`: the
/// register of that name; the base of a segment register; the base or the
/// limit of the GDT or IDT register.
pub open spec fn spec_vbox_field(x: X86Registers, reg: VBoxRegister) -> int {
    match reg {
        VBoxRegister::RAX => x.rax as int,
        VBoxRegister::RBX => x.rbx as int,
        VBoxRegister::RCX => x.rcx as int,
        VBoxRegister::RDX => x.rdx as int,
        VBoxRegister::RSI => x.rsi as int,
        VBoxRegister::RDI => x.rdi as int,
        VBoxRegister::RBP => x.rbp as int,
        VBoxRegister::RSP => x.rsp as int,
        VBoxRegister::R8 => x.r8 as int,
        VBoxRegister::R9 => x.r9 as int,
        VBoxRegister::R10 => x.r10 as int,
        VBoxRegister::R11 => x.r11 as int,
        VBoxRegister::R12 => x.r12 as int,
        VBoxRegister::R13 => x.r13 as int,
        VBoxRegister::R14 => x.r14 as int,
        VBoxRegister::R15 => x.r15 as int,
        VBoxRegister::RIP => x.rip as int,
        VBoxRegister::CR0 => x.cr0 as int,
        VBoxRegister::CR2 => x.cr2 as int,
        VBoxRegister::CR3 => x.cr3 as int,
        VBoxRegister::CR4 => x.cr4 as int,
        VBoxRegister::CS => x.cs.base as int,
        VBoxRegister::DS => x.ds.base as int,
        VBoxRegister::ES => x.es.base as int,
        VBoxRegister::FS => x.fs.base as int,
        VBoxRegister::GS => x.gs.base as int,
        VBoxRegister::SS => x.ss.base as int,
        VBoxRegister::GDTR_BASE => x.gdt.base as int,
        VBoxRegister::GDTR_LIMIT => x.gdt.limit as int,
        VBoxRegister::IDTR_BASE => x.idt.base as int,
        VBoxRegister::IDTR_LIMIT => x.idt.limit as int,
    }
}

/// Whether an FDP register is the limit of a descriptor table, which the
/// register state keeps in 16 bits.
pub open spec fn spec_vbox_is_limit(reg: VBoxRegister) -> bool {
    reg is GDTR_LIMIT || reg is IDTR_LIMIT
}

/// Each value read lands in the register it was read for: the `i`-th value
/// is what the register state holds for the `i`-th register read (the low
/// 16 bits of it for a descriptor table limit), and the registers that FDP
/// does not read are zero.
pub proof fn lemma_vbox_registers_by_name(values: Seq<u64>)
    requires
        values.len() == 31,
    ensures
        spec_vbox_register_reads().len() == 31,
        forall|i: int| 0 <= i < 31 ==> {
            let reg = #[trigger] spec_vbox_register_reads()[i];
            spec_vbox_field(spec_vbox_registers(values), reg)
                == if spec_vbox_is_limit(reg) { (values[i] % 0x1_0000) as int } else { values[i] as int }
        },
        ({
            let x = spec_vbox_registers(values);
            &&& x.rflags == 0 && x.efer == 0 && x.apic_base == 0
            &&& x.sysenter_cs == 0 && x.sysenter_esp == 0 && x.sysenter_eip == 0
            &&& x.msr_efer == 0 && x.msr_star == 0 && x.msr_lstar == 0
            &&& x.tr == SegmentReg::zero() && x.ldt == SegmentReg::zero()
        }),
{
    let g = values[28];
    let d = values[30];
    assert(g as u16 == g % 0x1_0000) by (bit_vector);
    assert(d as u16 == d % 0x1_0000) by (bit_vector);
    assert forall|i: int| 0 <= i < 31 implies {
        let reg = #[trigger] spec_vbox_register_reads()[i];
        spec_vbox_field(spec_vbox_registers(values), reg)
            == if spec_vbox_is_limit(reg) { (values[i] % 0x1_0000) as int } else { values[i] as int }
    } by {
    }
}

/// The register state made of the values read for `vbox_register_reads`,
/// in that order.
pub fn vbox_registers(values: &[u64]) -> (r: Registers)
    requires
        values@.len() == spec_vbox_register_reads().len(),
    ensures
        r == Registers::X86(spec_vbox_registers(values@)),
{
    Registers::X86(X86Registers {
        rax: values[0],
        rbx: values[1],
        rcx: values[2],
        rdx: values[3],
        rsi: values[4],
        rdi: values[5],
        rsp: values[7],
        rbp: values[6],
        r8: values[8],
        r9: values[9],
        r10: values[10],
        r11: values[11],
        r12: values[12],
        r13: values[13],
        r14: values[14],
        r15: values[15],
        rip: values[16],
        rflags: 0,
        cr0: values[17],
        cr2: values[18],
        cr3: values[19],
        cr4: values[20],
        sysenter_cs: 0,
        sysenter_esp: 0,
        sysenter_eip: 0,
        msr_efer: 0,
        msr_star: 0,
        msr_lstar: 0,
        efer: 0,
        apic_base: 0,
        cs: SegmentReg { base: values[21], limit: 0, selector: 0 },
        ds: SegmentReg { base: values[22], limit: 0, selector: 0 },
        es: SegmentReg { base: values[23], limit: 0, selector: 0 },
        fs: SegmentReg { base: values[24], limit: 0, selector: 0 },
        gs: SegmentReg { base: values[25], limit: 0, selector: 0 },
        ss: SegmentReg { base: values[26], limit: 0, selector: 0 },
        tr: SegmentReg::default(),
        ldt: SegmentReg::default(),
        idt: SystemTableReg { base: values[29], limit: values[30] as u16 },
        gdt: SystemTableReg { base: values[27], limit: values[28] as u16 },
    })
}

} // verus!
