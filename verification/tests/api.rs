use microvmi::api::params::{
    CommonInitParams, DriverInitParams, KVMInitParams, MemflowConnectorParams, MemflowInitParams,
};
use microvmi::api::{frame_paddr, max_physical_addr_from_gfn, Access, DriverError, PageFrame, Registers, SegmentReg, SystemTableReg, X86Registers, PAGE_SHIFT, PAGE_SIZE};
use microvmi::errors::MicrovmiError;
use microvmi::init::{all_driver_types, init_params_or_default, DriverProbe};
use microvmi::api::DriverType;

#[test]
fn page_constants() {
    assert_eq!(12, PAGE_SHIFT);
    assert_eq!(4096, PAGE_SIZE);
    assert_eq!(1u32 << PAGE_SHIFT, PAGE_SIZE);
}

#[test]
fn page_frame_of_address() {
    let frame = PageFrame::with_paddr(0x12345);
    assert_eq!(0x12, frame.number);
    assert_eq!(0x345, frame.offset);
    assert_eq!(0x12345, frame.to_paddr());
    assert_eq!(4096 - 0x345, frame.window_len());
    let aligned = PageFrame::with_paddr(0x3000);
    assert_eq!(4096, aligned.window_len());
    let last = PageFrame::with_paddr(u64::MAX);
    assert_eq!(u64::MAX, last.to_paddr());
    assert_eq!(1, last.window_len());
}

#[test]
fn max_physical_addr_shifts_gfn() {
    assert_eq!(0x10000000, max_physical_addr_from_gfn(0x10000));
    assert_eq!(0, max_physical_addr_from_gfn(0));
    // bits shifted out of 64 bits are lost
    assert_eq!(0xffff_ffff_ffff_f000, max_physical_addr_from_gfn(u64::MAX));
}

#[test]
fn access_flags() {
    assert_eq!(0, Access::NIL().bits());
    assert_eq!(1, Access::R().bits());
    assert_eq!(2, Access::W().bits());
    assert_eq!(4, Access::X().bits());
    assert_eq!(Access::RW(), Access::R().union(Access::W()));
    assert_eq!(Access::WX(), Access::W().union(Access::X()));
    assert_eq!(Access::RX(), Access::X().union(Access::R()));
    assert_eq!(Access::RWX(), Access::RW().union(Access::X()));
    assert!(Access::RWX().contains(Access::RX()));
    assert!(!Access::RW().contains(Access::X()));
    assert!(Access::NIL().is_empty());
    assert!(!Access::R().is_empty());
}

#[test]
fn access_from_bits() {
    assert_eq!(Some(Access::RX()), Access::from_bits(5));
    assert_eq!(None, Access::from_bits(8));
    assert_eq!(None, Access::from_bits(0xf));
    assert_eq!(Access::RX(), Access::from_bits_truncate(0xd));
}

#[test]
fn registers_default_to_zero() {
    let regs = X86Registers::default();
    assert_eq!(0, regs.rax);
    assert_eq!(0, regs.msr_lstar);
    assert_eq!(SegmentReg { base: 0, limit: 0, selector: 0 }, regs.cs);
    assert_eq!(SystemTableReg { base: 0, limit: 0 }, regs.gdt);
    let Registers::X86(inner) = Registers::X86(regs);
    assert_eq!(0, inner.apic_base);
}

#[test]
fn driver_init_params_default_is_empty() {
    let params = DriverInitParams::default();
    assert_eq!(None, params.common);
    assert_eq!(None, params.xen);
    assert_eq!(None, params.kvm);
    assert_eq!(None, params.memflow);
    assert_eq!(None, params.virtualbox);
}

#[test]
fn driver_init_params_from_parts() {
    let params = DriverInitParams::from_parts(
        Some(String::from("windows10")),
        Some(String::from("/tmp/introspector")),
        Some(String::from("foobar")),
        Some(vec![String::from("first"), String::from("second")]),
    );
    assert_eq!("windows10", params.common.unwrap().vm_name);
    assert_eq!(KVMInitParams::UnixSocket { path: String::from("/tmp/introspector") }, params.kvm.unwrap());
    assert_eq!(
        MemflowInitParams {
            connector_name: String::from("foobar"),
            connector_args: Some(MemflowConnectorParams::Default {
                args: vec![String::from("first"), String::from("second")]
            }),
        },
        params.memflow.unwrap()
    );
    // arguments without a connector name are not used
    let no_memflow = DriverInitParams::from_parts(None, None, None, Some(vec![String::from("x")]));
    assert_eq!(DriverInitParams::default(), no_memflow);
    let name_only = DriverInitParams::from_parts(None, None, Some(String::from("qemu_procfs")), None);
    assert_eq!(None, name_only.memflow.unwrap().connector_args);
}

#[test]
fn init_params_default_when_absent() {
    assert_eq!(DriverInitParams::default(), init_params_or_default(None));
    let given = DriverInitParams {
        common: Some(CommonInitParams { vm_name: String::from("vm") }),
        ..Default::default()
    };
    assert_eq!(given.clone(), init_params_or_default(Some(given)));
}

#[test]
fn probe_tries_every_driver_in_order() {
    let mut probe = DriverProbe::new(None);
    let mut tried = Vec::new();
    while let Some(t) = probe.next_candidate() {
        tried.push(t);
        assert_eq!(None, probe.on_failure(MicrovmiError::DriverNotCompiled(t)));
    }
    assert_eq!(all_driver_types(), tried);
    assert_eq!(
        vec![DriverType::Dummy, DriverType::HyperV, DriverType::KVM, DriverType::Memflow, DriverType::VirtualBox, DriverType::Xen],
        tried
    );
    assert_eq!(MicrovmiError::NoDriverAvailable, probe.exhausted());
}

#[test]
fn probe_stops_at_requested_driver_failure() {
    let mut probe = DriverProbe::new(Some(DriverType::Xen));
    assert_eq!(Some(DriverType::Xen), probe.next_candidate());
    assert_eq!(
        Some(MicrovmiError::DriverNotCompiled(DriverType::Xen)),
        probe.on_failure(MicrovmiError::DriverNotCompiled(DriverType::Xen))
    );
    assert_eq!(None, probe.next_candidate());
}

#[test]
fn frame_paddr_checks_the_frame() {
    assert_eq!(Ok(2 * 4096 + 16), frame_paddr(PageFrame { number: 2, offset: 16 }));
    assert_eq!(Err(DriverError::FrameNotFound(2)), frame_paddr(PageFrame { number: 2, offset: 4096 }));
    assert_eq!(Err(DriverError::FrameNotFound(1 << 52)), frame_paddr(PageFrame { number: 1 << 52, offset: 0 }));
}
