use std::cell::RefCell;
use std::rc::Rc;

use microvmi::api::{DriverError, DriverType, Introspectable, PageFrame};
use microvmi::memory::{next_read_chunk, next_write_chunk_end, place_chunk, Memory, MemoryError, PaddedMemory, SeekFrom};

/// A driver over `max_addr` bytes of memory in which byte `a` holds `a % 251`,
/// except in frames listed as missing.
struct TestDriver {
    max_addr: u64,
    missing_frames: Vec<u64>,
    fail_writes: bool,
    fail_writes_from: Option<u64>,
    writes: Rc<RefCell<Vec<(u64, Vec<u8>)>>>,
}

impl TestDriver {
    fn new(max_addr: u64) -> Self {
        TestDriver {
            max_addr,
            missing_frames: Vec::new(),
            fail_writes: false,
            fail_writes_from: None,
            writes: Rc::new(RefCell::new(Vec::new())),
        }
    }
}

impl Introspectable for TestDriver {
    fn read_frame(&self, frame: PageFrame, buf: &mut [u8]) -> Result<(), DriverError> {
        if self.missing_frames.contains(&frame.number) {
            return Err(DriverError::FrameNotFound(frame.number));
        }
        let base = frame.number * 4096 + frame.offset as u64;
        for (i, b) in buf.iter_mut().enumerate() {
            *b = ((base + i as u64) % 251) as u8;
        }
        Ok(())
    }

    fn write_physical(&self, paddr: u64, buf: &[u8]) -> Result<(), DriverError> {
        self.writes.borrow_mut().push((paddr, buf.to_vec()));
        if self.fail_writes || self.fail_writes_from.map_or(false, |a| paddr >= a) {
            Err(DriverError::Failure(String::from("no write")))
        } else {
            Ok(())
        }
    }

    fn get_max_physical_addr(&self) -> Result<u64, DriverError> {
        Ok(self.max_addr)
    }

    fn get_driver_type(&self) -> DriverType {
        DriverType::Dummy
    }
}

#[test]
fn test_seek_start() -> Result<(), MemoryError> {
    let max_addr: u64 = 1000;
    let mut memory = Memory::new(TestDriver::new(max_addr)).unwrap();
    // seek 0 doesn't move position
    assert_eq!(0, memory.seek(SeekFrom::Start(0))?);
    // seek beyond max_addr saturates at max_addr
    assert_eq!(max_addr, memory.seek(SeekFrom::Start(max_addr + 1))?);
    Ok(())
}

#[test]
fn test_seek_end() -> Result<(), MemoryError> {
    let max_addr: u64 = 1000;
    let mut memory = Memory::new(TestDriver::new(max_addr)).unwrap();
    // seek end should move to max_addr
    assert_eq!(max_addr, memory.seek(SeekFrom::End(0))?);
    // seek end beyond should saturates to max_addr
    assert_eq!(max_addr, memory.seek(SeekFrom::End(50))?);
    // seek end with a negative number should update the position
    assert_eq!(max_addr - 50, memory.seek(SeekFrom::End(-50))?);
    // seek below 0 should saturate at 0
    assert_eq!(0, memory.seek(SeekFrom::End(i64::MIN))?);
    Ok(())
}

#[test]
fn test_seek_current() -> Result<(), MemoryError> {
    let max_addr: u64 = 1000;
    let mut memory = Memory::new(TestDriver::new(max_addr)).unwrap();
    // seek current below 0 should saturate at 0
    assert_eq!(0, memory.seek(SeekFrom::Current(-5))?);
    // seek current should move the cursor
    assert_eq!(50, memory.seek(SeekFrom::Current(50))?);
    assert_eq!(49, memory.seek(SeekFrom::Current(-1))?);
    assert_eq!(59, memory.seek(SeekFrom::Current(10))?);
    // seek current beyond max_addr should saturate at max_addr
    assert_eq!(max_addr, memory.seek(SeekFrom::Current(i64::MAX))?);
    Ok(())
}

#[test]
fn memory_read_spans_pages() {
    let mut memory = Memory::new(TestDriver::new(3 * 4096)).unwrap();
    memory.seek(SeekFrom::Start(4000)).unwrap();
    let mut buf = vec![0u8; 200];
    assert_eq!(Ok(200), memory.read(&mut buf));
    for (i, b) in buf.iter().enumerate() {
        assert_eq!(((4000 + i) % 251) as u8, *b);
    }
    assert_eq!(Ok(4200), memory.seek(SeekFrom::Current(0)));
}

#[test]
fn memory_read_position_saturates_at_max() {
    let mut memory = Memory::new(TestDriver::new(100)).unwrap();
    memory.seek(SeekFrom::Start(90)).unwrap();
    let mut buf = vec![0u8; 30];
    assert_eq!(Ok(30), memory.read(&mut buf));
    assert_eq!(Ok(100), memory.seek(SeekFrom::Current(0)));
}

#[test]
fn memory_read_reports_missing_frame() {
    let mut drv = TestDriver::new(3 * 4096);
    drv.missing_frames.push(1);
    let mut memory = Memory::new(drv).unwrap();
    memory.seek(SeekFrom::Start(4000)).unwrap();
    let mut buf = vec![0u8; 200];
    assert_eq!(Err(MemoryError::Driver(DriverError::FrameNotFound(1))), memory.read(&mut buf));
    // the first chunk, up to the page boundary, was read
    assert_eq!(Ok(4096), memory.seek(SeekFrom::Current(0)));
}

#[test]
fn padded_memory_reads_zeros_for_missing_frame() {
    let mut drv = TestDriver::new(3 * 4096);
    drv.missing_frames.push(1);
    let mut memory = PaddedMemory::new(drv).unwrap();
    memory.seek(SeekFrom::Start(4000)).unwrap();
    let mut buf = vec![7u8; 200];
    assert_eq!(Ok(200), memory.read(&mut buf));
    for i in 0..96 {
        assert_eq!(((4000 + i) % 251) as u8, buf[i]);
    }
    for i in 96..200 {
        assert_eq!(0, buf[i]);
    }
}

#[test]
fn memory_write_advances_position() {
    let mut memory = Memory::new(TestDriver::new(10000)).unwrap();
    let buf = vec![1u8; 5000];
    assert_eq!(Ok(5000), memory.write(&buf));
    assert_eq!(Ok(5000), memory.seek(SeekFrom::Current(0)));
    assert_eq!(Ok(()), memory.flush());
}

#[test]
fn memory_write_failure() {
    let mut drv = TestDriver::new(10000);
    drv.fail_writes = true;
    let mut memory = Memory::new(drv).unwrap();
    assert_eq!(Err(MemoryError::WriteFailure), memory.write(&[1, 2, 3]));
    assert_eq!(Ok(0), memory.seek(SeekFrom::Current(0)));
}

#[test]
fn absolute_seek_twice_is_seek_once() {
    let mut memory = Memory::new(TestDriver::new(1000)).unwrap();
    memory.seek(SeekFrom::Start(300)).unwrap();
    assert_eq!(Ok(950), memory.seek(SeekFrom::End(-50)));
    assert_eq!(Ok(950), memory.seek(SeekFrom::End(-50)));
    assert_eq!(Ok(20), memory.seek(SeekFrom::Start(20)));
    assert_eq!(Ok(20), memory.seek(SeekFrom::Start(20)));
}

#[test]
fn relative_seek_is_undone_by_opposite_seek() {
    let mut memory = Memory::new(TestDriver::new(1000)).unwrap();
    memory.seek(SeekFrom::Start(500)).unwrap();
    assert_eq!(Ok(740), memory.seek(SeekFrom::Current(240)));
    assert_eq!(Ok(500), memory.seek(SeekFrom::Current(-240)));
    // a move that saturates is not undone
    assert_eq!(Ok(1000), memory.seek(SeekFrom::Current(600)));
    assert_eq!(Ok(400), memory.seek(SeekFrom::Current(-600)));
}

#[test]
fn seek_start_beyond_i64_range() {
    let mut memory = Memory::new(TestDriver::new(u64::MAX)).unwrap();
    assert_eq!(Ok(i64::MAX as u64), memory.seek(SeekFrom::Start(u64::MAX)));
}

#[test]
fn padded_memory_reports_other_errors() {
    struct Failing;
    impl Introspectable for Failing {
        fn read_frame(&self, _frame: PageFrame, _buf: &mut [u8]) -> Result<(), DriverError> {
            Err(DriverError::Unsupported)
        }
        fn write_physical(&self, _paddr: u64, _buf: &[u8]) -> Result<(), DriverError> {
            Err(DriverError::Unsupported)
        }
        fn get_max_physical_addr(&self) -> Result<u64, DriverError> {
            Ok(8192)
        }
        fn get_driver_type(&self) -> DriverType {
            DriverType::Dummy
        }
    }
    let mut memory = PaddedMemory::new(Failing).unwrap();
    let mut buf = [0u8; 16];
    assert_eq!(Err(MemoryError::Driver(DriverError::Unsupported)), memory.read(&mut buf));
}

#[test]
fn memory_new_reports_driver_error() {
    struct NoMax;
    impl Introspectable for NoMax {
        fn read_frame(&self, _frame: PageFrame, _buf: &mut [u8]) -> Result<(), DriverError> {
            Err(DriverError::Unsupported)
        }
        fn write_physical(&self, _paddr: u64, _buf: &[u8]) -> Result<(), DriverError> {
            Err(DriverError::Unsupported)
        }
        fn get_driver_type(&self) -> DriverType {
            DriverType::Dummy
        }
    }
    assert!(matches!(Memory::new(NoMax), Err(DriverError::Unsupported)));
}

#[test]
fn test_from_max_addr_uses_the_answer() {
    let mut memory = Memory::from_max_addr(TestDriver::new(0), Ok(300)).unwrap();
    assert_eq!(Ok(300), memory.seek(SeekFrom::End(0)));
    assert_eq!(Ok(0), memory.seek(SeekFrom::Current(-1000)));
    let mut padded = PaddedMemory::from_max_addr(TestDriver::new(0), Ok(77)).unwrap();
    assert_eq!(Ok(77), padded.seek(SeekFrom::Start(1000)));
}

#[test]
fn test_from_max_addr_passes_the_error_on() {
    let r = Memory::from_max_addr(TestDriver::new(10), Err(DriverError::Unsupported));
    assert!(matches!(r, Err(DriverError::Unsupported)));
    let r = PaddedMemory::from_max_addr(TestDriver::new(10), Err(DriverError::FrameNotFound(3)));
    assert!(matches!(r, Err(DriverError::FrameNotFound(3))));
}

#[test]
fn test_default_operations_are_unsupported() {
    let mut drv = TestDriver::new(10);
    assert_eq!(Err(DriverError::Unsupported), drv.get_vcpu_count());
    let mut buf = [7u8; 4];
    let mut n: u64 = 5;
    assert_eq!(Err(DriverError::Unsupported), drv.read_physical(0, &mut buf, &mut n));
    assert_eq!([7u8; 4], buf);
    assert_eq!(5, n);
    assert!(drv.read_registers(0).is_err());
    assert_eq!(Err(DriverError::Unsupported), drv.pause());
    assert_eq!(Err(DriverError::Unsupported), drv.resume());
    assert!(matches!(drv.listen(0), Err(DriverError::Unsupported)));
}

#[test]
fn memory_read_of_nothing_succeeds_in_place() {
    let mut memory = Memory::new(TestDriver::new(1000)).unwrap();
    memory.seek(SeekFrom::Start(10)).unwrap();
    let mut buf: [u8; 0] = [];
    assert_eq!(Ok(0), memory.read(&mut buf));
    assert_eq!(Ok(10), memory.seek(SeekFrom::Current(0)));
}

#[test]
fn memory_read_failure_keeps_earlier_chunks() {
    let mut drv = TestDriver::new(3 * 4096);
    drv.missing_frames.push(1);
    let mut memory = Memory::new(drv).unwrap();
    memory.seek(SeekFrom::Start(4000)).unwrap();
    let mut buf = vec![7u8; 200];
    assert!(memory.read(&mut buf).is_err());
    for i in 0..96 {
        assert_eq!(((4000 + i) % 251) as u8, buf[i]);
    }
    // the driver wrote nothing into the failed chunk
    for i in 96..200 {
        assert_eq!(7, buf[i]);
    }
}

#[test]
fn memory_write_chunks_at_stream_position() {
    let drv = TestDriver::new(100000);
    let mut memory = Memory::new(drv).unwrap();
    memory.seek(SeekFrom::Start(100)).unwrap();
    let buf: Vec<u8> = (0..9000u32).map(|i| (i % 256) as u8).collect();
    assert_eq!(Ok(9000), memory.write(&buf));
    assert_eq!(Ok(9100), memory.seek(SeekFrom::Current(0)));
}

#[test]
fn memory_write_hands_each_page_chunk_to_the_driver() {
    let drv = TestDriver::new(100000);
    let writes = drv.writes.clone();
    let buf: Vec<u8> = (0..9000u32).map(|i| (i % 256) as u8).collect();
    let mut memory = Memory::new(drv).unwrap();
    memory.seek(SeekFrom::Start(100)).unwrap();
    assert_eq!(Ok(9000), memory.write(&buf));
    let writes = writes.borrow();
    assert_eq!(3, writes.len());
    assert_eq!((100, buf[0..4096].to_vec()), writes[0]);
    assert_eq!((4196, buf[4096..8192].to_vec()), writes[1]);
    assert_eq!((8292, buf[8192..9000].to_vec()), writes[2]);
}

#[test]
fn memory_write_stops_at_the_first_failing_chunk() {
    let mut drv = TestDriver::new(100000);
    drv.fail_writes_from = Some(4000);
    let writes = drv.writes.clone();
    let buf = vec![1u8; 9000];
    let mut memory = Memory::new(drv).unwrap();
    memory.seek(SeekFrom::Start(100)).unwrap();
    assert_eq!(Err(MemoryError::WriteFailure), memory.write(&buf));
    // the position is at the start of the chunk that failed
    assert_eq!(Ok(4196), memory.seek(SeekFrom::Current(0)));
    assert_eq!(2, writes.borrow().len());
}

#[test]
fn memory_write_of_nothing_calls_no_driver() {
    let drv = TestDriver::new(1000);
    let writes = drv.writes.clone();
    let mut memory = Memory::new(drv).unwrap();
    assert_eq!(Ok(0), memory.write(&[]));
    assert_eq!(Ok(0), memory.seek(SeekFrom::Current(0)));
    assert!(writes.borrow().is_empty());
}

#[test]
fn read_and_write_chunk_bounds() {
    assert_eq!((PageFrame { number: 0, offset: 4000 }, 96), next_read_chunk(4000, 200));
    assert_eq!((PageFrame { number: 2, offset: 0 }, 150), next_read_chunk(8192, 150));
    assert_eq!(4096, next_write_chunk_end(0, 9000));
    assert_eq!(9000, next_write_chunk_end(8192, 9000));
}

#[test]
fn place_chunk_keeps_or_zeroes() {
    let mut buf = [1u8; 6];
    assert_eq!(Ok(()), place_chunk(&mut buf, 2, &[7, 8], Ok(()), false));
    assert_eq!([1, 1, 7, 8, 1, 1], buf);
    assert_eq!(Ok(()), place_chunk(&mut buf, 1, &[9, 9], Err(DriverError::FrameNotFound(4)), true));
    assert_eq!([1, 0, 0, 8, 1, 1], buf);
    assert_eq!(
        Err(DriverError::FrameNotFound(4)),
        place_chunk(&mut buf, 4, &[5, 6], Err(DriverError::FrameNotFound(4)), false)
    );
    assert_eq!([1, 0, 0, 8, 5, 6], buf);
}
