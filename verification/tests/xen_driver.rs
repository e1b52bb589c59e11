use microvmi::api::params::{CommonInitParams, DriverInitParams};
use microvmi::api::{CrType, Event, EventType, InterceptType, Registers, SegmentReg, SystemTableReg, X86Registers};
use microvmi::driver::xen::{
    check_event_version, name_path, poll_timeout, port_to_unmask, ring_request_available, xen_apply_registers,
    xen_event, xen_monitor_request, xen_page_chunks, xen_read_chunk, xen_registers, xen_vcpu_count, xen_write_chunk,
    XenCr, XenDomainSearch,
    XenDriverError, XenEventType, XenHvmCpu, XenMonitorRequest, XenPageChunk, XenVmEventResponse, XenstoreRead,
};

fn sample_cpu() -> XenHvmCpu {
    XenHvmCpu {
        rax: 1, rbx: 2, rcx: 3, rdx: 4, rsi: 5, rdi: 6, rsp: 7, rbp: 8, r8: 9, r9: 10, r10: 11, r11: 12,
        r12: 13, r13: 14, r14: 15, r15: 16, rip: 17, rflags: 18, cr0: 19, cr2: 20, cr3: 21, cr4: 22,
        sysenter_cs: 23, sysenter_esp: 24, sysenter_eip: 25, msr_efer: 26, msr_star: 27, msr_lstar: 28,
        cs_base: 100, cs_limit: 101, cs_sel: 0x10,
        ds_base: 200, ds_limit: 201, ds_sel: 0x18,
        es_base: 300, es_limit: 301, es_sel: 0x18,
        fs_base: 400, fs_limit: 401, fs_sel: 0x53,
        gs_base: 500, gs_limit: 501, gs_sel: 0x2b,
        ss_base: 600, ss_limit: 601, ss_sel: 0x18,
        tr_base: 700, tr_limit: 701, tr_sel: 0x40,
        idtr_base: 0x3000, idtr_limit: 0x1_0fff,
        gdtr_base: 0x4000, gdtr_limit: 0x7f,
    }
}

#[test]
fn xen_registers_conversion() {
    let Registers::X86(r) = xen_registers(&sample_cpu()).unwrap();
    assert_eq!(1, r.rax);
    assert_eq!(18, r.rflags);
    assert_eq!(21, r.cr3);
    assert_eq!(28, r.msr_lstar);
    assert_eq!(0, r.efer);
    assert_eq!(0, r.apic_base);
    assert_eq!(SegmentReg { base: 400, limit: 401, selector: 0x53 }, r.fs);
    assert_eq!(SegmentReg { base: 700, limit: 701, selector: 0x40 }, r.tr);
    assert_eq!(SegmentReg::default(), r.ldt);
    // the IDT limit keeps its low 16 bits
    assert_eq!(SystemTableReg { base: 0x3000, limit: 0x0fff }, r.idt);
    assert_eq!(SystemTableReg { base: 0x4000, limit: 0x7f }, r.gdt);
}

#[test]
fn xen_registers_selector_too_wide() {
    let mut cpu = sample_cpu();
    cpu.gs_sel = 0x1_0000;
    assert_eq!(Err(XenDriverError::TryFromIntError), xen_registers(&cpu));
}

#[test]
fn xen_registers_roundtrip() {
    let mut regs = X86Registers::default();
    regs.rax = 0xaaaa;
    regs.rip = 0xffff_8000_0000_1000;
    regs.cr3 = 0x1ab000;
    regs.cs = SegmentReg { base: 0, limit: 0xffff_ffff, selector: 0x33 };
    regs.efer = 0xd01;
    let mut cpu = sample_cpu();
    xen_apply_registers(&mut cpu, &Registers::X86(regs));
    assert_eq!(0x33, cpu.cs_sel);
    // the IDT and GDT of the context are left as they are
    assert_eq!(0x3000, cpu.idtr_base);
    let Registers::X86(back) = xen_registers(&cpu).unwrap();
    assert_eq!(regs.rax, back.rax);
    assert_eq!(regs.rip, back.rip);
    assert_eq!(regs.cr3, back.cr3);
    assert_eq!(regs.cs, back.cs);
    // EFER is not part of the context
    assert_eq!(0, back.efer);
}

#[test]
fn xen_event_conversion() {
    assert_eq!(Ok(()), check_event_version(7, 7));
    assert_eq!(Err(XenDriverError::EventVersionMismatch(5, 7)), check_event_version(5, 7));
    let (event, rsp) = xen_event(
        XenEventType::Cr { cr_type: XenCr::Cr3, new: 0x2000, old: 0x1000 },
        3,
        9,
        0b111,
        7,
        1,
    )
    .unwrap();
    assert_eq!(Event { vcpu: 3, kind: EventType::Cr { cr_type: CrType::Cr3, new: 0x2000, old: 0x1000 } }, event);
    assert_eq!(XenVmEventResponse { reason: 9, version: 7, vcpu_id: 3, flags: 1 }, rsp);
    let (bp, _) = xen_event(XenEventType::Breakpoint { gfn: 1, gpa: 0x1234, insn_len: 1 }, 0, 0, 0, 7, 1).unwrap();
    assert_eq!(EventType::Breakpoint { gpa: 0, insn_len: 1 }, bp.kind);
    let (msr, _) = xen_event(XenEventType::Msr { msr_type: 0xc0000080, value: 5 }, 0, 0, 0, 7, 1).unwrap();
    assert_eq!(EventType::Msr { msr_type: 0xc0000080, value: 5 }, msr.kind);
    assert_eq!(
        Err(XenDriverError::TryFromIntError),
        xen_event(XenEventType::Msr { msr_type: 1, value: 2 }, 0x1_0000, 0, 0, 7, 1)
    );
}

#[test]
fn xen_event_channel_decisions() {
    assert_eq!(Ok(None), port_to_unmask(-1));
    assert_eq!(Ok(Some(4)), port_to_unmask(4));
    assert_eq!(Err(XenDriverError::TryFromIntError), port_to_unmask(-2));
    assert!(ring_request_available(1, 4, 4, true));
    assert!(!ring_request_available(0, 4, 4, true));
    assert!(!ring_request_available(1, 4, 5, true));
    assert!(!ring_request_available(1, 4, 4, false));
    assert_eq!(Ok(5000), poll_timeout(5000));
    assert_eq!(Err(XenDriverError::TryFromIntError), poll_timeout(u32::MAX));
}

#[test]
fn xen_monitor_requests() {
    assert_eq!(
        XenMonitorRequest::WriteCtrlreg { index: XenCr::Cr4, enable: true, sync: true, onchangeonly: true },
        xen_monitor_request(InterceptType::Cr(CrType::Cr4), true)
    );
    assert_eq!(XenMonitorRequest::MovToMsr { msr: 0x174, enable: false }, xen_monitor_request(InterceptType::Msr(0x174), false));
    assert_eq!(XenMonitorRequest::SoftwareBreakpoint { enable: true }, xen_monitor_request(InterceptType::Breakpoint, true));
}

#[test]
fn xen_vcpu_counts() {
    assert_eq!(Ok(1), xen_vcpu_count(0));
    assert_eq!(Ok(4), xen_vcpu_count(3));
    assert_eq!(Ok(u16::MAX), xen_vcpu_count(u16::MAX as u32 - 1));
    assert_eq!(Err(XenDriverError::TryFromIntError), xen_vcpu_count(u16::MAX as u32));
}

#[test]
fn xen_page_chunking() {
    assert_eq!(Vec::<XenPageChunk>::new(), xen_page_chunks(0x1000, 0));
    assert_eq!(
        vec![XenPageChunk { gfn: 1, page_offset: 0x10, buf_offset: 0, len: 0x20 }],
        xen_page_chunks(0x1010, 0x20)
    );
    assert_eq!(
        vec![
            XenPageChunk { gfn: 0, page_offset: 4000, buf_offset: 0, len: 96 },
            XenPageChunk { gfn: 1, page_offset: 0, buf_offset: 96, len: 4096 },
            XenPageChunk { gfn: 2, page_offset: 0, buf_offset: 4192, len: 8 },
        ],
        xen_page_chunks(4000, 4200)
    );
}

#[test]
fn xen_domain_search() {
    assert!(matches!(
        XenDomainSearch::from_init_params(DriverInitParams::default()),
        Err(XenDriverError::MissingVMName)
    ));
    let params = DriverInitParams {
        common: Some(CommonInitParams { vm_name: String::from("win10") }),
        ..Default::default()
    };
    let mut search = XenDomainSearch::from_init_params(params).unwrap();
    assert_eq!(Ok(false), search.observe("0", XenstoreRead::Name(String::from("Domain-0"))));
    assert_eq!(Ok(false), search.observe("3", XenstoreRead::PermissionDenied));
    assert_eq!(Ok(true), search.observe("5", XenstoreRead::Name(String::from("win10"))));
    search.record_match(5);
    assert_eq!(Some(5), search.domid());
    assert_eq!(
        Err(XenDriverError::XenstoreReadError(String::from("/local/domain/7/name"), String::from("io"))),
        search.observe("7", XenstoreRead::Failed(String::from("io")))
    );
    assert_eq!("/local/domain/12/name", name_path("12"));
}

#[test]
fn xen_domain_search_ends_with_last_match_or_not_found() {
    let mut search = XenDomainSearch::new(String::from("win10"));
    assert_eq!(Err(XenDriverError::DomainNotFound(String::from("win10"))), search.finish());
    search.record_match(5);
    search.record_match(9);
    assert_eq!(Ok(9), search.finish());
}

#[test]
fn xen_chunk_copies() {
    let page: Vec<u8> = (0..64u8).collect();
    let mut buf = [0u8; 8];
    let mut bytes_read: u64 = 3;
    let chunk = XenPageChunk { gfn: 0, page_offset: 10, buf_offset: 2, len: 4 };
    xen_read_chunk(&mut buf, &chunk, &page, &mut bytes_read);
    assert_eq!([0, 0, 10, 11, 12, 13, 0, 0], buf);
    assert_eq!(7, bytes_read);
    let mut page2 = [9u8; 16];
    let src = [1u8, 2, 3, 4, 5, 6];
    xen_write_chunk(&mut page2, &XenPageChunk { gfn: 0, page_offset: 12, buf_offset: 1, len: 4 }, &src);
    assert_eq!([9, 9, 9, 9, 9, 9, 9, 9, 9, 9, 9, 9, 2, 3, 4, 5], page2);
}
