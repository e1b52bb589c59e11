use microvmi::driver::hyperv::VmwpHandleIter;

#[test]
fn vmwp_handles_of_process() {
    let table = vec![(4, 0x10), (1200, 0x20), (4, 0x30), (88, 0x40), (1200, 0x50)];
    let mut iter = VmwpHandleIter::new(1200, table.clone());
    assert_eq!(Some(0x20), iter.next_handle());
    assert_eq!(Some(0x50), iter.next_handle());
    assert_eq!(None, iter.next_handle());
    assert_eq!(None, iter.next_handle());
    let mut none = VmwpHandleIter::new(77, table);
    assert_eq!(None, none.next_handle());
}
