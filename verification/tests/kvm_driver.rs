use microvmi::api::{Access, CrType, Event, EventType, InterceptType, Registers, SegmentReg, SystemTableReg, X86Registers};
use microvmi::driver::kvm::{
    default_event_intercepts, kvm_control, kvm_registers, KvmControl, KvmCr, KvmDtable, KvmEventType,
    KvmInterceptType, KvmPageAccess, KvmRegs, KvmSegment, KvmSregs, KvmState, PauseAction, ResumeAction,
    ResumeStep,
};

fn segment(n: u64) -> KvmSegment {
    KvmSegment { base: n, limit: n as u32 + 1, selector: n as u16 + 2 }
}

fn sample_regs() -> KvmRegs {
    KvmRegs {
        rax: 1, rbx: 2, rcx: 3, rdx: 4, rsi: 5, rdi: 6, rsp: 7, rbp: 8, r8: 9, r9: 10, r10: 11,
        r11: 12, r12: 13, r13: 14, r14: 15, r15: 16, rip: 17, rflags: 18,
    }
}

fn sample_sregs() -> KvmSregs {
    KvmSregs {
        cs: segment(100), ds: segment(200), es: segment(300), fs: segment(400), gs: segment(500),
        ss: segment(600), tr: segment(700), ldt: segment(800),
        gdt: KvmDtable { base: 0x1000, limit: 0x7f },
        idt: KvmDtable { base: 0x2000, limit: 0xfff },
        cr0: 0x80050033, cr2: 0x42, cr3: 0x1ab000, cr4: 0x3706f8, efer: 0xd01, apic_base: 0xfee00900,
    }
}

#[test]
fn kvm_registers_conversion() {
    let msrs = [0x10, 0x11, 0x12, 0x13, 0x14, 0x15];
    let Registers::X86(r) = kvm_registers(&sample_regs(), &sample_sregs(), &msrs);
    assert_eq!(1, r.rax);
    assert_eq!(16, r.r15);
    assert_eq!(17, r.rip);
    assert_eq!(18, r.rflags);
    assert_eq!(0x1ab000, r.cr3);
    assert_eq!(0x10, r.sysenter_cs);
    assert_eq!(0x11, r.sysenter_esp);
    assert_eq!(0x12, r.sysenter_eip);
    assert_eq!(0x13, r.msr_efer);
    assert_eq!(0x14, r.msr_star);
    assert_eq!(0x15, r.msr_lstar);
    assert_eq!(0xd01, r.efer);
    assert_eq!(0xfee00900, r.apic_base);
    assert_eq!(SegmentReg { base: 100, limit: 101, selector: 102 }, r.cs);
    assert_eq!(SegmentReg { base: 800, limit: 801, selector: 802 }, r.ldt);
    assert_eq!(SystemTableReg { base: 0x2000, limit: 0xfff }, r.idt);
    assert_eq!(SystemTableReg { base: 0x1000, limit: 0x7f }, r.gdt);
}

#[test]
fn kvm_regs_roundtrip() {
    let msrs = [0u64; 6];
    let Registers::X86(r) = kvm_registers(&sample_regs(), &sample_sregs(), &msrs);
    let back = KvmRegs::from_x86(&r);
    assert_eq!(sample_regs(), back);
    let mut other = X86Registers::default();
    other.rip = 0xdeadbeef;
    assert_eq!(0xdeadbeef, KvmRegs::from_x86(&other).rip);
}

#[test]
fn kvm_segment_conversions() {
    assert_eq!(SegmentReg { base: 5, limit: 6, selector: 7 }, SegmentReg::from_kvm(segment(5)));
    assert_eq!(SystemTableReg { base: 9, limit: 3 }, SystemTableReg::from_kvm(KvmDtable { base: 9, limit: 3 }));
}

#[test]
fn kvm_page_access_roundtrip() {
    let all = [
        (Access::NIL(), KvmPageAccess::NIL),
        (Access::R(), KvmPageAccess::R),
        (Access::W(), KvmPageAccess::W),
        (Access::RW(), KvmPageAccess::RW),
        (Access::X(), KvmPageAccess::X),
        (Access::RX(), KvmPageAccess::RX),
        (Access::WX(), KvmPageAccess::WX),
        (Access::RWX(), KvmPageAccess::RWX),
    ];
    for (access, kvm) in all.iter() {
        assert_eq!(Ok(*kvm), KvmPageAccess::try_from_access(*access));
        assert_eq!(*access, kvm.to_access());
        assert_eq!(*access, KvmPageAccess::try_from_access(*access).unwrap().to_access());
    }
}

#[test]
fn kvm_intercept_controls() {
    assert_eq!(KvmControl::Cr(KvmCr::Cr3), kvm_control(InterceptType::Cr(CrType::Cr3)));
    assert_eq!(KvmControl::Msr(0xc0000082), kvm_control(InterceptType::Msr(0xc0000082)));
    assert_eq!(KvmControl::Events(KvmInterceptType::Breakpoint), kvm_control(InterceptType::Breakpoint));
    assert_eq!(KvmControl::Events(KvmInterceptType::Pagefault), kvm_control(InterceptType::Pagefault));
    assert_eq!(
        vec![KvmInterceptType::Cr, KvmInterceptType::Msr, KvmInterceptType::Pagefault],
        default_event_intercepts()
    );
}

#[test]
fn kvm_pause_resume_state() {
    let mut state: KvmState<u32> = KvmState::new(2);
    // resume on a running VM does nothing
    assert_eq!(ResumeAction::AlreadyResumed, state.resume_action());
    assert_eq!(PauseAction::Pause, state.pause_action());
    state.on_paused(2);
    // a second pause does nothing
    assert_eq!(PauseAction::AlreadyPaused, state.pause_action());
    assert_eq!(ResumeAction::WaitPauseEvent, state.resume_action());
    assert_eq!(ResumeStep::ReplyContinue, state.on_resume_event(&KvmEventType::PauseVCPU));
    assert_eq!(ResumeAction::WaitPauseEvent, state.resume_action());
    assert_eq!(
        ResumeStep::Unexpected,
        state.on_resume_event(&KvmEventType::Breakpoint { gpa: 0, insn_len: 1 })
    );
    assert_eq!(ResumeStep::ReplyContinue, state.on_resume_event(&KvmEventType::PauseVCPU));
    assert_eq!(ResumeAction::AlreadyResumed, state.resume_action());
    assert_eq!(PauseAction::Pause, state.pause_action());
}

#[test]
fn kvm_listen_then_reply() {
    let mut state: KvmState<&'static str> = KvmState::new(4);
    let event = state.listen_event(
        2,
        KvmEventType::Cr { cr_type: KvmCr::Cr3, new: 0x2000, old: 0x1000 },
        "token",
    );
    assert_eq!(
        Event { vcpu: 2, kind: EventType::Cr { cr_type: CrType::Cr3, new: 0x2000, old: 0x1000 } },
        event
    );
    assert_eq!("token", state.take_event(&event));
    let again = state.listen_event(2, KvmEventType::Breakpoint { gpa: 0, insn_len: 1 }, "second");
    assert_eq!("second", state.take_event(&again));
}

#[test]
fn kvm_event_kinds() {
    let mut state: KvmState<u8> = KvmState::new(1);
    let msr = state.listen_event(0, KvmEventType::Msr { msr_type: 0x174, new: 5, old: 4 }, 1);
    assert_eq!(EventType::Msr { msr_type: 0x174, value: 5 }, msr.kind);
    let bp = state.listen_event(0, KvmEventType::Breakpoint { gpa: 0x1234, insn_len: 1 }, 2);
    assert_eq!(EventType::Breakpoint { gpa: 0x1234, insn_len: 1 }, bp.kind);
    let pf = state.listen_event(
        0,
        KvmEventType::Pagefault { gva: 0x7000, gpa: 0x3000, access: KvmPageAccess::RW, view: 0 },
        3,
    );
    assert_eq!(EventType::Pagefault { gva: 0x7000, gpa: 0x3000, access: Access::RW() }, pf.kind);
    assert_eq!(3, state.take_event(&pf));
}

#[test]
fn kvm_pause_resume_cycle_repeats() {
    let mut state: KvmState<u32> = KvmState::new(3);
    for _ in 0..50 {
        assert_eq!(PauseAction::Pause, state.pause_action());
        state.on_paused(3);
        for _ in 0..3 {
            assert_eq!(ResumeAction::WaitPauseEvent, state.resume_action());
            assert_eq!(ResumeStep::ReplyContinue, state.on_resume_event(&KvmEventType::PauseVCPU));
        }
        assert_eq!(ResumeAction::AlreadyResumed, state.resume_action());
        // a second resume does nothing either
        assert_eq!(ResumeAction::AlreadyResumed, state.resume_action());
    }
    for vcpu in 0..3u16 {
        assert!(!state.has_pending(vcpu));
    }
}
