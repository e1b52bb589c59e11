//! The unified VMI API: driver types, page access rights, page frames,
//! driver errors and the `Introspectable` trait that every driver implements.
use vstd::prelude::*;

pub mod events;
pub mod params;
pub mod registers;

pub use events::{CrType, Event, EventReplyType, EventType, InterceptType};
pub use registers::{Registers, SegmentReg, SystemTableReg, X86Registers};

verus! {

/// Log2 of the page size.
pub const PAGE_SHIFT: u32 = 12;

/// Size of a physical page.
pub const PAGE_SIZE: u32 = 4096;

/// The bits of the read, write and execute rights.
pub open spec fn access_mask() -> u32 {
    0b111
}

/// Access rights of a guest physical page: a set of the flags R (bit 0),
/// W (bit 1) and X (bit 2).
#[derive(Debug, Clone, Copy, PartialEq, Eq, Structural)]
pub struct Access {
    bits: u32,
}

impl Access {
    #[verifier::type_invariant]
    closed spec fn inv(self) -> bool {
        self.bits <= 7
    }

    /// The bit value of the flag set.
    pub closed spec fn value(self) -> u32 {
        self.bits
    }

    /// No access.
    #[allow(non_snake_case)]
    pub fn NIL() -> (r: Access)
        ensures
            r.value() == 0,
    {
        Access { bits: 0 }
    }

    /// Read.
    #[allow(non_snake_case)]
    pub fn R() -> (r: Access)
        ensures
            r.value() == 1,
    {
        Access { bits: 1 }
    }

    /// Write.
    #[allow(non_snake_case)]
    pub fn W() -> (r: Access)
        ensures
            r.value() == 2,
    {
        Access { bits: 2 }
    }

    /// Execute.
    #[allow(non_snake_case)]
    pub fn X() -> (r: Access)
        ensures
            r.value() == 4,
    {
        Access { bits: 4 }
    }

    /// Read and write.
    #[allow(non_snake_case)]
    pub fn RW() -> (r: Access)
        ensures
            r.value() == 3,
    {
        Access { bits: 3 }
    }

    /// Write and execute.
    #[allow(non_snake_case)]
    pub fn WX() -> (r: Access)
        ensures
            r.value() == 6,
    {
        Access { bits: 6 }
    }

    /// Read and execute.
    #[allow(non_snake_case)]
    pub fn RX() -> (r: Access)
        ensures
            r.value() == 5,
    {
        Access { bits: 5 }
    }

    /// Read, write and execute.
    #[allow(non_snake_case)]
    pub fn RWX() -> (r: Access)
        ensures
            r.value() == 7,
    {
        Access { bits: 7 }
    }

    /// The flag set whose value is `rights`.
    pub open spec fn from_rights(rights: u32) -> Access {
        choose|a: Access| a.value() == rights
    }

    /// An access flag set is determined by its value.
    pub proof fn lemma_from_rights(a: Access)
        ensures
            Access::from_rights(a.value()) == a,
    {
        let b = Access::from_rights(a.value());
        assert(b.value() == a.value());
    }

    /// Every value up to 7 is the value of a flag set.
    pub proof fn lemma_rights_exist(rights: u32)
        requires
            rights <= 7,
        ensures
            Access::from_rights(rights).value() == rights,
    {
        let a = Access { bits: rights };
        assert(a.value() == rights);
    }

    /// The raw bits of the flag set.
    pub fn bits(&self) -> (r: u32)
        ensures
            r == self.value(),
            r <= 7,
    {
        proof {
            use_type_invariant(self);
        }
        self.bits
    }

    /// The flag set whose bits are `bits`, or `None` when `bits` holds a bit
    /// that is none of R, W and X.
    pub fn from_bits(bits: u32) -> (r: Option<Access>)
        ensures
            r is Some <==> bits & !access_mask() == 0,
            r matches Some(a) ==> a.value() == bits,
    {
        if bits & !0b111u32 == 0 {
            assert(bits & !0b111u32 == 0 ==> bits <= 7) by (bit_vector);
            Some(Access { bits })
        } else {
            None
        }
    }

    /// The flag set made of the bits of `bits` that are R, W or X; other bits are dropped.
    pub fn from_bits_truncate(bits: u32) -> (r: Access)
        ensures
            r.value() == bits & access_mask(),
    {
        assert(bits & 0b111u32 <= 7) by (bit_vector);
        Access { bits: bits & 0b111u32 }
    }

    /// Whether every flag of `other` is in `self`.
    pub fn contains(&self, other: Access) -> (r: bool)
        ensures
            r == (self.value() & other.value() == other.value()),
    {
        self.bits & other.bits == other.bits
    }

    /// The flags that are in `self` or in `other`.
    pub fn union(self, other: Access) -> (r: Access)
        ensures
            r.value() == self.value() | other.value(),
    {
        proof {
            use_type_invariant(&self);
            use_type_invariant(&other);
        }
        let a = self.bits;
        let b = other.bits;
        assert(a <= 7 && b <= 7 ==> a | b <= 7) by (bit_vector);
        Access { bits: a | b }
    }

    /// Whether the set holds no flag.
    pub fn is_empty(&self) -> (r: bool)
        ensures
            r == (self.value() == 0),
    {
        self.bits == 0
    }
}

/// The union of two flag sets holds both, whichever comes first.
pub proof fn lemma_union_contains(a: u32, b: u32)
    ensures
        (a | b) & a == a,
        (a | b) & b == b,
        a | b == b | a,
{
    assert((a | b) & a == a) by (bit_vector);
    assert((a | b) & b == b) by (bit_vector);
    assert(a | b == b | a) by (bit_vector);
}

/// The available hypervisor VMI drivers.
#[derive(Debug, Clone, Copy, PartialEq, Eq, Structural)]
pub enum DriverType {
    Dummy,
    HyperV,
    KVM,
    Memflow,
    VirtualBox,
    Xen,
}

/// Initialization parameter passed to a driver.
///
/// This is required to initialize the KVM driver, which needs a socket path.
#[derive(Debug, Clone)]
pub enum DriverInitParam {
    KVMiSocket(String),
}

/// A physical page frame and an offset in it.
#[derive(Debug, Clone, Copy, PartialEq, Eq, Structural)]
pub struct PageFrame {
    /// Frame number: the physical address divided by the page size.
    pub number: u64,
    /// Offset of the address in the frame.
    pub offset: u32,
}

impl PageFrame {
    /// The physical address that the frame and offset stand for.
    pub open spec fn paddr(self) -> int {
        self.number * (PAGE_SIZE as int) + self.offset
    }

    /// A frame whose offset lies inside the page.
    pub open spec fn wf(self) -> bool {
        self.offset < PAGE_SIZE && self.number < 0x10_0000_0000_0000
    }

    /// The frame holding `paddr`, with the offset of `paddr` in it.
    pub fn with_paddr(paddr: u64) -> (r: PageFrame)
        ensures
            r.wf(),
            r.paddr() == paddr,
            r.number == paddr / (PAGE_SIZE as u64),
            r.offset == paddr % (PAGE_SIZE as u64),
    {
        let number = paddr >> 12u64;
        let offset = paddr & 0xfffu64;
        assert(paddr >> 12u64 == paddr / 4096) by (bit_vector);
        assert(paddr & 0xfffu64 == paddr % 4096) by (bit_vector);
        assert(paddr >> 12u64 < 0x10_0000_0000_0000) by (bit_vector);
        PageFrame { number, offset: offset as u32 }
    }

    /// The physical address of the frame and offset.
    pub fn to_paddr(&self) -> (r: u64)
        requires
            self.wf(),
        ensures
            r == self.paddr(),
    {
        assert(self.number * 4096 + self.offset < 0x1_0000_0000_0000_0000) by (nonlinear_arith)
            requires
                self.number < 0x10_0000_0000_0000,
                self.offset < 4096,
        ;
        self.number * 4096 + self.offset as u64
    }

    /// The number of bytes from the offset to the end of the page.
    pub fn window_len(&self) -> (r: u32)
        requires
            self.wf(),
        ensures
            r == PAGE_SIZE - self.offset,
            1 <= r <= PAGE_SIZE,
    {
        PAGE_SIZE - self.offset
    }
}

/// The physical address of a frame and offset: the address when the offset
/// lies inside the page and the frame number is that of an address, else
/// `FrameNotFound` with the frame number.
pub fn frame_paddr(frame: PageFrame) -> (r: Result<u64, DriverError>)
    ensures
        frame.wf() ==> r == Ok::<u64, DriverError>(frame.paddr() as u64),
        !frame.wf() ==> r == Err::<u64, DriverError>(DriverError::FrameNotFound(frame.number)),
{
    if frame.offset < PAGE_SIZE && frame.number < 0x10_0000_0000_0000 {
        Ok(frame.to_paddr())
    } else {
        Err(DriverError::FrameNotFound(frame.number))
    }
}

/// The physical address of the start of frame `max_gfn`, wrapping at 2^64,
/// as `max_gfn << PAGE_SHIFT` computes it.
pub fn max_physical_addr_from_gfn(max_gfn: u64) -> (r: u64)
    ensures
        r == (max_gfn as int * 4096) % 0x1_0000_0000_0000_0000,
{
    let r = max_gfn << 12u64;
    assert(max_gfn << 12u64 == ((max_gfn as int * 4096) % 0x1_0000_0000_0000_0000) as u64) by (bit_vector);
    r
}

/// Errors that a driver reports.
#[derive(Debug, Clone, PartialEq, Eq)]
pub enum DriverError {
    /// The driver does not implement the operation.
    Unsupported,
    /// The requested frame does not exist in the guest physical memory.
    FrameNotFound(u64),
    /// Any other failure of the driver, with its message.
    Failure(String),
}

/// The interface that every VMI driver implements.
///
/// An operation that a driver does not implement reports
/// `DriverError::Unsupported`.
pub trait Introspectable {
    /// Retrieve the number of VCPUs.
    fn get_vcpu_count(&self) -> (r: Result<u16, DriverError>)
        default_ensures
            r == Err::<u16, DriverError>(DriverError::Unsupported),
    {
        Err(DriverError::Unsupported)
    }

    /// Read the physical memory, starting from `paddr`, into `buf`, and
    /// store in `bytes_read` the number of bytes read.
    fn read_physical(&self, paddr: u64, buf: &mut [u8], bytes_read: &mut u64) -> (r: Result<(), DriverError>)
        ensures
            final(buf)@.len() == old(buf)@.len(),
        default_ensures
            r == Err::<(), DriverError>(DriverError::Unsupported),
            final(buf)@ == old(buf)@,
            *final(bytes_read) == *old(bytes_read),
    {
        Err(DriverError::Unsupported)
    }

    /// Whether the answer `r`, with the buffer left holding `after`, is an
    /// outcome that this driver may give when asked to read `frame` into a
    /// buffer that held `before`. A relation, not a function: a live guest
    /// may answer two reads of a frame differently. A driver whose reads are
    /// proved here narrows it; for any other driver every outcome is
    /// possible.
    open spec fn frame_read_allows(&self, frame: PageFrame, before: Seq<u8>, after: Seq<u8>, r: Result<(), DriverError>) -> bool {
        true
    }

    /// Read `buf.len()` bytes of the frame `frame`, starting at its offset,
    /// into `buf`. A frame that does not exist is reported as
    /// `DriverError::FrameNotFound`. What the bytes are depends on the guest
    /// at the time of the call: two reads of a frame may differ. The outcome
    /// is one that `frame_read_allows` admits, or an `Unsupported` answer
    /// that leaves the buffer alone.
    fn read_frame(&self, frame: PageFrame, buf: &mut [u8]) -> (r: Result<(), DriverError>)
        requires
            frame.wf(),
            frame.offset + old(buf)@.len() <= PAGE_SIZE,
        ensures
            final(buf)@.len() == old(buf)@.len(),
            self.frame_read_allows(frame, old(buf)@, final(buf)@, r)
                || (r == Err::<(), DriverError>(DriverError::Unsupported) && final(buf)@ == old(buf)@),
        default_ensures
            r == Err::<(), DriverError>(DriverError::Unsupported),
            final(buf)@ == old(buf)@,
    {
        Err(DriverError::Unsupported)
    }

    /// Whether `r` is an answer that this driver may give when asked to
    /// write `data` at `paddr`. A relation, not a function: a live guest may
    /// answer two writes differently. A driver whose writes are proved here
    /// narrows it; for any other driver every answer is possible.
    open spec fn write_allows(&self, paddr: u64, data: Seq<u8>, r: Result<(), DriverError>) -> bool {
        true
    }

    /// Modify the contents of physical memory, starting at `paddr`, from
    /// `buf`. The answer is one that `write_allows` admits, or `Unsupported`.
    fn write_physical(&self, paddr: u64, buf: &[u8]) -> (r: Result<(), DriverError>)
        ensures
            self.write_allows(paddr, buf@, r) || r == Err::<(), DriverError>(DriverError::Unsupported),
        default_ensures
            r == Err::<(), DriverError>(DriverError::Unsupported),
    {
        Err(DriverError::Unsupported)
    }

    /// Get the maximum physical address.
    fn get_max_physical_addr(&self) -> (r: Result<u64, DriverError>)
        default_ensures
            r == Err::<u64, DriverError>(DriverError::Unsupported),
    {
        Err(DriverError::Unsupported)
    }

    /// Read the register values of `vcpu`.
    fn read_registers(&self, vcpu: u16) -> (r: Result<Registers, DriverError>)
        default_ensures
            r == Err::<Registers, DriverError>(DriverError::Unsupported),
    {
        Err(DriverError::Unsupported)
    }

    /// Get the access rights of the page holding `paddr`.
    fn get_page_access(&self, paddr: u64) -> (r: Result<Access, DriverError>)
        default_ensures
            r == Err::<Access, DriverError>(DriverError::Unsupported),
    {
        Err(DriverError::Unsupported)
    }

    /// Set the access rights of the page holding `paddr`.
    fn set_page_access(&self, paddr: u64, access: Access) -> (r: Result<(), DriverError>)
        default_ensures
            r == Err::<(), DriverError>(DriverError::Unsupported),
    {
        Err(DriverError::Unsupported)
    }

    /// Write the register values of `vcpu`.
    fn write_registers(&self, vcpu: u16, reg: Registers) -> (r: Result<(), DriverError>)
        default_ensures
            r == Err::<(), DriverError>(DriverError::Unsupported),
    {
        Err(DriverError::Unsupported)
    }

    /// Pause the VM.
    fn pause(&mut self) -> (r: Result<(), DriverError>)
        default_ensures
            r == Err::<(), DriverError>(DriverError::Unsupported),
    {
        Err(DriverError::Unsupported)
    }

    /// Resume the VM.
    fn resume(&mut self) -> (r: Result<(), DriverError>)
        default_ensures
            r == Err::<(), DriverError>(DriverError::Unsupported),
    {
        Err(DriverError::Unsupported)
    }

    /// Enable or disable an event interception on `vcpu`.
    fn toggle_intercept(&mut self, vcpu: u16, intercept_type: InterceptType, enabled: bool) -> (r: Result<(), DriverError>)
        default_ensures
            r == Err::<(), DriverError>(DriverError::Unsupported),
    {
        Err(DriverError::Unsupported)
    }

    /// Listen and return the next event, or `None` after `timeout` milliseconds.
    fn listen(&mut self, timeout: u32) -> (r: Result<Option<Event>, DriverError>)
        default_ensures
            r == Err::<Option<Event>, DriverError>(DriverError::Unsupported),
    {
        Err(DriverError::Unsupported)
    }

    /// Reply to the event that was popped last.
    fn reply_event(&mut self, event: Event, reply_type: EventReplyType) -> (r: Result<(), DriverError>)
        default_ensures
            r == Err::<(), DriverError>(DriverError::Unsupported),
    {
        Err(DriverError::Unsupported)
    }

    /// The concrete driver type.
    fn get_driver_type(&self) -> DriverType;
}

} // verus!
