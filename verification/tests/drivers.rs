use microvmi::api::params::{CommonInitParams, DriverInitParams, MemflowConnectorParams, MemflowInitParams};
use microvmi::api::{DriverError, DriverType, Introspectable, PageFrame, Registers, SegmentReg, SystemTableReg};
use microvmi::memory::{Memory, MemoryError, SeekFrom};
use microvmi::driver::dummy::{Dummy, DUMMY_MAX_PHYSICAL_ADDR};
use microvmi::driver::memflow::{split_once_eq, Memflow, MemflowDriverError};
use microvmi::driver::virtualbox::{vbox_register_reads, vbox_registers, VBoxRegister, VBOX_VCPU_COUNT};

fn memflow_params(name: &str, args: Option<Vec<&str>>, vm_name: Option<&str>) -> DriverInitParams {
    DriverInitParams {
        common: vm_name.map(|v| CommonInitParams { vm_name: String::from(v) }),
        memflow: Some(MemflowInitParams {
            connector_name: String::from(name),
            connector_args: args.map(|a| MemflowConnectorParams::Default {
                args: a.into_iter().map(String::from).collect(),
            }),
        }),
        ..Default::default()
    }
}

fn pair(k: &str, v: &str) -> (String, String) {
    (String::from(k), String::from(v))
}


#[test]
fn dummy_driver() {
    let mut drv = Dummy::new(DriverInitParams::default()).unwrap();
    assert_eq!(Ok(10 * 1024 * 1024), drv.get_max_physical_addr());
    assert_eq!(10485760, DUMMY_MAX_PHYSICAL_ADDR);
    assert_eq!(DriverType::Dummy, drv.get_driver_type());
    let mut buf = [9u8; 4];
    let mut bytes_read = 3;
    assert_eq!(Ok(()), drv.read_physical(0, &mut buf, &mut bytes_read));
    assert_eq!([9u8; 4], buf);
    assert_eq!(3, bytes_read);
    // operations that the dummy driver does not implement are unsupported
    assert!(drv.pause().is_err());
    assert!(drv.get_vcpu_count().is_err());
}

#[test]
fn memflow_requires_connector() {
    assert_eq!(
        MemflowDriverError::MissingConnectorParameter,
        Memflow::new(DriverInitParams::default()).unwrap_err()
    );
}

#[test]
fn memflow_connector_args() {
    let m = Memflow::new(memflow_params("kvm", Some(vec!["pid=1234", "k=v=w"]), Some("vm"))).unwrap();
    assert_eq!("kvm", m.connector_name);
    assert_eq!(Some("1234"), m.extra_args.get("pid"));
    assert_eq!(Some("v=w"), m.extra_args.get("k"));
    // the VM name is handed only to the qemu_procfs connector
    assert_eq!(None, m.extra_args.get("name"));
    assert_eq!("pid=1234,k=\"v=w\"", m.extra_args.to_string());
    let none = Memflow::new(memflow_params("coredump", None, None)).unwrap();
    assert_eq!("", none.extra_args.to_string());
}

#[test]
fn memflow_qemu_procfs_gets_vm_name() {
    let m = Memflow::new(memflow_params("qemu_procfs", Some(vec!["map_base=0"]), Some("win10"))).unwrap();
    assert_eq!("name=win10,map_base=0", m.extra_args.to_string());
    let no_vm = Memflow::new(memflow_params("qemu_procfs", None, None)).unwrap();
    assert_eq!("", no_vm.extra_args.to_string());
    // a later argument with the same key replaces the value in place
    let replaced = Memflow::new(memflow_params("qemu_procfs", Some(vec!["name=other", "x=1"]), Some("win10"))).unwrap();
    assert_eq!("name=other,x=1", replaced.extra_args.to_string());
}

#[test]
fn memflow_args_stop_at_nul() {
    let m = Memflow::new(memflow_params("kvm", Some(vec!["a\0b=c\0d"]), None)).unwrap();
    assert_eq!(Some("c"), m.extra_args.get("a"));
}

#[test]
fn memflow_invalid_argument() {
    assert_eq!(
        MemflowDriverError::InvalidConnectorArgument(String::from("novalue")),
        Memflow::new(memflow_params("kvm", Some(vec!["a=b", "novalue", "c"]), None)).unwrap_err()
    );
}

#[test]
fn split_once_at_first_equal() {
    assert_eq!(Some(pair("a", "b=c")), split_once_eq("a=b=c"));
    assert_eq!(Some(pair("", "")), split_once_eq("="));
    assert_eq!(Some(pair("é", "ü")), split_once_eq("é=ü"));
    assert_eq!(None, split_once_eq("abc"));
}

#[test]
fn vbox_register_assembly() {
    let reads = vbox_register_reads();
    assert_eq!(31, reads.len());
    assert_eq!(VBoxRegister::RAX, reads[0]);
    assert_eq!(VBoxRegister::RBP, reads[6]);
    assert_eq!(VBoxRegister::IDTR_LIMIT, reads[30]);
    let values: Vec<u64> = (0..31u64).map(|i| 100 + i).collect();
    let Registers::X86(r) = vbox_registers(&values);
    assert_eq!(100, r.rax);
    assert_eq!(106, r.rbp);
    assert_eq!(107, r.rsp);
    assert_eq!(116, r.rip);
    assert_eq!(0, r.rflags);
    assert_eq!(119, r.cr3);
    assert_eq!(SegmentReg { base: 121, limit: 0, selector: 0 }, r.cs);
    assert_eq!(SegmentReg::default(), r.tr);
    assert_eq!(SystemTableReg { base: 127, limit: 128 }, r.gdt);
    assert_eq!(SystemTableReg { base: 129, limit: 130 }, r.idt);
    let mut wide = values.clone();
    wide[28] = 0x1_0005;
    let Registers::X86(w) = vbox_registers(&wide);
    assert_eq!(5, w.gdt.limit);
    assert_eq!(1, VBOX_VCPU_COUNT);
}

#[test]
fn dummy_driver_frames_and_writes() {
    let drv = Dummy::new(DriverInitParams::default()).unwrap();
    let mut buf = [5u8; 8];
    assert_eq!(Ok(()), drv.read_frame(PageFrame { number: 2, offset: 16 }, &mut buf));
    assert_eq!([5u8; 8], buf);
    assert_eq!(Err(DriverError::Unsupported), drv.write_physical(0, &buf));
    let mut memory = Memory::new(drv).unwrap();
    let mut out = [3u8; 10];
    assert_eq!(Ok(10), memory.read(&mut out));
    assert_eq!([3u8; 10], out);
    assert_eq!(Err(MemoryError::WriteFailure), memory.write(&out));
    assert_eq!(Ok(10), memory.seek(SeekFrom::Current(0)));
}
