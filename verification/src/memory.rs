//! Physical memory seen as a seekable byte stream, read and written
//! page by page through a driver.
use vstd::prelude::*;

use vstd::slice::slice_subrange;

use crate::api::{DriverError, Introspectable, PageFrame, PAGE_SIZE};

verus! {

/// Position to seek to in the physical address space.
#[derive(Debug, Clone, Copy, PartialEq, Eq)]
pub enum SeekFrom {
    /// Absolute position from the start of physical memory.
    Start(u64),
    /// Offset relative to the maximum physical address.
    End(i64),
    /// Offset relative to the current position.
    Current(i64),
}

/// Errors of the memory streams.
#[derive(Debug, Clone, PartialEq, Eq)]
pub enum MemoryError {
    /// The driver failed to read a frame.
    Driver(DriverError),
    /// The driver failed to write a chunk.
    WriteFailure,
}

/// Where a relative move by `p` lands from `pos`, saturating at 0 and at `max_addr`.
pub open spec fn spec_move(pos: u64, max_addr: u64, p: int) -> u64 {
    let target: int = pos + p;
    if target < 0 {
        0
    } else if target > max_addr {
        max_addr
    } else {
        target as u64
    }
}

/// The position that a seek to `from` reaches from `pos`, in a space whose
/// last address is `max_addr`.
pub open spec fn spec_seek(pos: u64, max_addr: u64, from: SeekFrom) -> u64 {
    match from {
        SeekFrom::Start(p) => spec_move(0, max_addr, if p > i64::MAX { i64::MAX as int } else { p as int }),
        SeekFrom::End(p) => spec_move(max_addr, max_addr, p as int),
        SeekFrom::Current(p) => spec_move(pos, max_addr, p as int),
    }
}

/// Every seek lands within `[0, max_addr]`.
pub proof fn lemma_seek_in_range(pos: u64, max_addr: u64, from: SeekFrom)
    requires
        pos <= max_addr,
    ensures
        spec_seek(pos, max_addr, from) <= max_addr,
{
}

/// Seeking to a position relative to the start or the end twice lands where
/// seeking once does.
pub proof fn lemma_absolute_seek_idempotent(pos: u64, max_addr: u64, from: SeekFrom)
    requires
        pos <= max_addr,
        !(from is Current),
    ensures
        spec_seek(spec_seek(pos, max_addr, from), max_addr, from) == spec_seek(pos, max_addr, from),
{
}

/// Moving forward by `a` and then by `b` lands where one move by `a + b`
/// lands: reading or writing chunk by chunk advances the position as one
/// move by the whole length does.
pub proof fn lemma_forward_moves_compose(pos: u64, max_addr: u64, a: int, b: int)
    requires
        pos <= max_addr,
        0 <= a,
        0 <= b,
    ensures
        spec_move(spec_move(pos, max_addr, a), max_addr, b) == spec_move(pos, max_addr, a + b),
{
}

/// A relative move that stays within `[0, max_addr]` is undone by the
/// opposite move.
pub proof fn lemma_move_undone(pos: u64, max_addr: u64, p: int)
    requires
        pos <= max_addr,
        0 <= pos + p <= max_addr,
    ensures
        spec_move(spec_move(pos, max_addr, p), max_addr, -p) == pos,
{
}

/// The magnitude of `p` as a `u64`, as `i64::unsigned_abs` computes it.
fn unsigned_abs(p: i64) -> (r: u64)
    ensures
        r == (if p < 0 { -(p as int) } else { p as int }),
{
    if p < 0 {
        ((-(p as i128)) as u64)
    } else {
        p as u64
    }
}

/// A position in `[0, max_addr]`, moved by seeks that saturate at both ends.
pub struct AddressSeek {
    pos: u64,
    max_addr: u64,
}

impl AddressSeek {
    #[verifier::type_invariant]
    closed spec fn inv(self) -> bool {
        self.pos <= self.max_addr
    }

    /// The current position.
    pub closed spec fn pos(self) -> u64 {
        self.pos
    }

    /// The last reachable position.
    pub closed spec fn max_addr(self) -> u64 {
        self.max_addr
    }

    /// A position at 0 in a space whose last address is `max_addr`.
    pub fn new(max_addr: u64) -> (r: AddressSeek)
        ensures
            r.pos() == 0,
            r.max_addr() == max_addr,
    {
        AddressSeek { pos: 0, max_addr }
    }

    /// The current position.
    pub fn position(&self) -> (r: u64)
        ensures
            r == self.pos(),
            r <= self.max_addr(),
    {
        proof {
            use_type_invariant(self);
        }
        self.pos
    }

    fn seek_current(&mut self, p: i64) -> (r: u64)
        ensures
            final(self).pos() == spec_move(old(self).pos(), old(self).max_addr(), p as int),
            final(self).max_addr() == old(self).max_addr(),
            r == final(self).pos(),
    {
        proof {
            use_type_invariant(&*self);
        }
        let mut pos = if p > 0 {
            self.pos.saturating_add(unsigned_abs(p))
        } else {
            self.pos.saturating_sub(unsigned_abs(p))
        };
        if pos > self.max_addr {
            pos = self.max_addr;
        }
        self.pos = pos;
        pos
    }

    /// Move the position to `from`; a target below 0 saturates at 0 and a
    /// target beyond the maximum address saturates at the maximum address.
    /// Returns the new position.
    pub fn seek(&mut self, from: SeekFrom) -> (r: Result<u64, MemoryError>)
        ensures
            final(self).pos() == spec_seek(old(self).pos(), old(self).max_addr(), from),
            final(self).max_addr() == old(self).max_addr(),
            final(self).pos() <= final(self).max_addr(),
            r == Ok::<u64, MemoryError>(final(self).pos()),
    {
        match from {
            SeekFrom::Start(p) => {
                let q: i64 = if p <= i64::MAX as u64 { p as i64 } else { i64::MAX };
                self.pos = 0;
                Ok(self.seek_current(q))
            },
            SeekFrom::End(p) => {
                self.pos = self.max_addr;
                Ok(self.seek_current(p))
            },
            SeekFrom::Current(p) => Ok(self.seek_current(p)),
        }
    }
}

/// The frame holding `paddr`, with the offset of `paddr` in it.
pub open spec fn spec_frame_of(paddr: u64) -> PageFrame {
    PageFrame { number: paddr / 4096, offset: (paddr % 4096) as u32 }
}

/// The length of the chunk read at `paddr` when `remaining` bytes are left
/// to read: up to the end of the page, and no more than `remaining`.
pub open spec fn spec_read_chunk_len(paddr: u64, remaining: int) -> int {
    let window: int = 4096 - (paddr % 4096) as int;
    if window < remaining {
        window
    } else {
        remaining
    }
}

/// `buf` with the bytes from `at` on replaced by those of `chunk`.
pub open spec fn spec_splice(buf: Seq<u8>, at: int, chunk: Seq<u8>) -> Seq<u8> {
    Seq::new(buf.len(), |i: int| if at <= i < at + chunk.len() { chunk[i - at] } else { buf[i] })
}

/// What a stream keeps of the driver's answer on a chunk and of the bytes
/// that the driver left in it: a missing frame reads as zeros when `pad`
/// holds; any other answer and bytes are kept as they are.
pub open spec fn spec_chunk_outcome(answer: Result<(), DriverError>, after: Seq<u8>, pad: bool) -> (Result<(), DriverError>, Seq<u8>) {
    if pad && answer matches Err(DriverError::FrameNotFound(_)) {
        (Ok(()), Seq::new(after.len(), |i: int| 0u8))
    } else {
        (answer, after)
    }
}

/// The end of the chunk written from index `at` of a buffer of `len`
/// bytes: one page size further, or the end of the buffer.
pub open spec fn spec_write_chunk_end(at: int, len: int) -> int {
    if len - at > 4096 {
        at + 4096
    } else {
        len
    }
}

/// The chunk of `buf` that a stream writes from index `m` on, when writing
/// started at position `p0`, was handed to the driver at the position that
/// the stream had reached, and the driver's answer was success.
pub open spec fn spec_chunk_written<D: Introspectable>(drv: D, p0: u64, max_addr: u64, buf: Seq<u8>, m: int) -> bool {
    drv.write_allows(spec_move(p0, max_addr, m), buf.subrange(m, spec_write_chunk_end(m, buf.len() as int)), Ok(()))
}

/// Every chunk of `buf` that starts before index `upto` was written
/// successfully at its own position.
pub open spec fn spec_written_until<D: Introspectable>(drv: D, p0: u64, max_addr: u64, buf: Seq<u8>, upto: int) -> bool {
    forall|m: int| 0 <= m < upto && m % 4096 == 0 ==> #[trigger] spec_chunk_written(drv, p0, max_addr, buf, m)
}

/// The index just past the chunk that a stream reads from index `at` of a
/// buffer of `len` bytes, when reading started at position `p0`: the
/// position at index `at` is `spec_move(p0, max_addr, at)`, and the chunk
/// runs up to the end of that position's page.
pub open spec fn spec_read_chunk_end(p0: u64, max_addr: u64, len: int, at: int) -> int {
    at + spec_read_chunk_len(spec_move(p0, max_addr, at), len - at)
}

/// Whether `m` is the start of one of the chunks, from index `at` on, that a
/// stream reads of a buffer of `len` bytes when reading started at position
/// `p0`.
pub open spec fn spec_is_read_chunk_start(p0: u64, max_addr: u64, len: int, at: int, m: int) -> bool
    decreases len - at,
{
    if at < 0 || at >= len {
        false
    } else {
        m == at || spec_is_read_chunk_start(p0, max_addr, len, spec_read_chunk_end(p0, max_addr, len, at), m)
    }
}

/// What holds when a read of `before.len()` bytes from position `p0` fails:
/// it stopped at the start `m` of one of its chunks, with the position at
/// that chunk's start, and the bytes after that chunk untouched.
pub open spec fn spec_read_stopped(p0: u64, max_addr: u64, before: Seq<u8>, after: Seq<u8>, end_pos: u64) -> bool {
    exists|m: int|
        #![trigger spec_is_read_chunk_start(p0, max_addr, before.len() as int, 0, m)]
        spec_is_read_chunk_start(p0, max_addr, before.len() as int, 0, m)
        && end_pos == spec_move(p0, max_addr, m)
        && forall|i: int| spec_read_chunk_end(p0, max_addr, before.len() as int, m) <= i < before.len() ==> #[trigger] after[i] == before[i]
}

/// The chunk of a successful read that starts at index `m` holds an outcome
/// that the driver may give for the frame and offset at the chunk's
/// position, read into the bytes that the chunk held before; with padding,
/// it may instead hold zeros, for a frame that the driver reported missing.
pub open spec fn spec_chunk_placed<D: Introspectable>(drv: D, p0: u64, max_addr: u64, before: Seq<u8>, after: Seq<u8>, m: int, pad: bool) -> bool {
    let e = spec_read_chunk_end(p0, max_addr, before.len() as int, m);
    let frame = spec_frame_of(spec_move(p0, max_addr, m));
    ||| drv.frame_read_allows(frame, before.subrange(m, e), after.subrange(m, e), Ok(()))
    ||| (pad && after.subrange(m, e) == Seq::new((e - m) as nat, |i: int| 0u8))
}

/// What a successful read from position `p0` leaves in a buffer that held
/// `before`: every chunk of the read holds what the driver gave for it, at
/// its own index in the buffer.
pub open spec fn spec_read_placed<D: Introspectable>(drv: D, p0: u64, max_addr: u64, before: Seq<u8>, after: Seq<u8>, pad: bool) -> bool {
    forall|m: int| #[trigger] spec_is_read_chunk_start(p0, max_addr, before.len() as int, 0, m)
        ==> spec_chunk_placed(drv, p0, max_addr, before, after, m, pad)
}

/// A chunk of a read is never empty.
pub proof fn lemma_read_chunk_nonempty(p0: u64, max_addr: u64, len: int, m: int)
    requires
        m < len,
    ensures
        m < spec_read_chunk_end(p0, max_addr, len, m) <= len,
{
}

/// The chunk starts of a read from index `at` on lie in `[at, len)`.
pub proof fn lemma_read_chunk_start_range(p0: u64, max_addr: u64, len: int, at: int, m: int)
    requires
        spec_is_read_chunk_start(p0, max_addr, len, at, m),
    ensures
        0 <= at <= m < len,
    decreases len - at,
{
    if m != at {
        lemma_read_chunk_nonempty(p0, max_addr, len, at);
        lemma_read_chunk_start_range(p0, max_addr, len, spec_read_chunk_end(p0, max_addr, len, at), m);
    }
}

/// The chunks of a read do not overlap: a chunk ends at or before the start
/// of any later chunk.
pub proof fn lemma_read_chunks_ordered(p0: u64, max_addr: u64, len: int, at: int, m: int, b: int)
    requires
        spec_is_read_chunk_start(p0, max_addr, len, at, m),
        spec_is_read_chunk_start(p0, max_addr, len, at, b),
        m < b,
    ensures
        spec_read_chunk_end(p0, max_addr, len, m) <= b,
    decreases len - at,
{
    let next = spec_read_chunk_end(p0, max_addr, len, at);
    lemma_read_chunk_nonempty(p0, max_addr, len, at);
    lemma_read_chunk_start_range(p0, max_addr, len, at, m);
    if m == at {
        lemma_read_chunk_start_range(p0, max_addr, len, next, b);
    } else {
        lemma_read_chunks_ordered(p0, max_addr, len, next, m, b);
    }
}

/// The chunks of a read tile the buffer: every index from `at` on lies in
/// one of them.
pub proof fn lemma_read_chunks_cover(p0: u64, max_addr: u64, len: int, at: int, i: int)
    requires
        0 <= at <= i < len,
    ensures
        exists|m: int| #[trigger] spec_is_read_chunk_start(p0, max_addr, len, at, m) && m <= i < spec_read_chunk_end(p0, max_addr, len, m),
    decreases len - at,
{
    let next = spec_read_chunk_end(p0, max_addr, len, at);
    lemma_read_chunk_nonempty(p0, max_addr, len, at);
    if i < next {
        assert(spec_is_read_chunk_start(p0, max_addr, len, at, at));
    } else {
        lemma_read_chunks_cover(p0, max_addr, len, next, i);
        let m = choose|m: int| #[trigger] spec_is_read_chunk_start(p0, max_addr, len, next, m) && m <= i < spec_read_chunk_end(p0, max_addr, len, m);
        assert(spec_is_read_chunk_start(p0, max_addr, len, at, m));
    }
}

/// A successful read through the dummy driver, which reads nothing, leaves
/// the buffer as it was: every byte lies in a chunk, and every chunk holds
/// what it held before.
pub proof fn lemma_dummy_read_keeps_buffer(p0: u64, max_addr: u64, before: Seq<u8>, after: Seq<u8>)
    requires
        after.len() == before.len(),
        spec_read_placed(crate::driver::dummy::Dummy {}, p0, max_addr, before, after, false),
    ensures
        after == before,
{
    let len = before.len() as int;
    assert forall|i: int| 0 <= i < len implies after[i] == before[i] by {
        lemma_read_chunks_cover(p0, max_addr, len, 0, i);
        let m = choose|m: int| #[trigger] spec_is_read_chunk_start(p0, max_addr, len, 0, m) && m <= i < spec_read_chunk_end(p0, max_addr, len, m);
        let e = spec_read_chunk_end(p0, max_addr, len, m);
        lemma_read_chunk_start_range(p0, max_addr, len, 0, m);
        lemma_read_chunk_nonempty(p0, max_addr, len, m);
        assert(spec_chunk_placed(crate::driver::dummy::Dummy {}, p0, max_addr, before, after, m, false));
        assert(after.subrange(m, e) == before.subrange(m, e));
        assert(after.subrange(m, e)[i - m] == before.subrange(m, e)[i - m]);
    }
    assert(after =~= before);
}

/// The start of the chunk after a chunk start is a chunk start too, as long
/// as it lies inside the buffer.
pub proof fn lemma_next_read_chunk_start(p0: u64, max_addr: u64, len: int, at: int, m: int)
    requires
        0 <= at,
        spec_is_read_chunk_start(p0, max_addr, len, at, m),
        spec_read_chunk_end(p0, max_addr, len, m) < len,
    ensures
        spec_is_read_chunk_start(p0, max_addr, len, at, spec_read_chunk_end(p0, max_addr, len, m)),
    decreases len - at,
{
    let next = spec_read_chunk_end(p0, max_addr, len, at);
    if m != at {
        lemma_next_read_chunk_start(p0, max_addr, len, next, m);
    } else {
        assert(spec_is_read_chunk_start(p0, max_addr, len, next, next));
    }
}

/// The frame holding `paddr` and the length of the chunk that a stream
/// reads there when `remaining` bytes are left: up to the end of the page.
pub fn next_read_chunk(paddr: u64, remaining: usize) -> (r: (PageFrame, usize))
    ensures
        r.0 == spec_frame_of(paddr),
        r.0.wf(),
        r.1 == spec_read_chunk_len(paddr, remaining as int),
{
    let frame = PageFrame::with_paddr(paddr);
    let window = frame.window_len() as usize;
    let n = if window < remaining { window } else { remaining };
    (frame, n)
}

/// The end of the chunk that a stream writes from index `at` of a buffer of
/// `len` bytes.
pub fn next_write_chunk_end(at: usize, len: usize) -> (r: usize)
    requires
        at <= len,
    ensures
        r == spec_write_chunk_end(at as int, len as int),
{
    if len - at > PAGE_SIZE as usize {
        at + PAGE_SIZE as usize
    } else {
        len
    }
}

/// Put into `buf` at `at` what the stream keeps of a chunk that the driver
/// answered `answer` on and left as `chunk`: the chunk as it is, or zeros
/// for a missing frame when `pad` holds. Returns the answer that the stream
/// keeps.
pub fn place_chunk(buf: &mut [u8], at: usize, chunk: &[u8], answer: Result<(), DriverError>, pad: bool) -> (r: Result<(), DriverError>)
    requires
        at + chunk@.len() <= old(buf)@.len(),
    ensures
        r == spec_chunk_outcome(answer, chunk@, pad).0,
        final(buf)@ == spec_splice(old(buf)@, at as int, spec_chunk_outcome(answer, chunk@, pad).1),
{
    let zero = pad && matches!(answer, Err(DriverError::FrameNotFound(_)));
    let ghost kept = spec_chunk_outcome(answer, chunk@, pad).1;
    let n = chunk.len();
    let blen = buf.len();
    let mut i: usize = 0;
    while i < n
        invariant
            i <= n,
            n == chunk@.len(),
            blen == buf@.len(),
            at + n <= buf@.len(),
            kept.len() == n,
            zero ==> kept == Seq::new(n as nat, |k: int| 0u8),
            !zero ==> kept == chunk@,
            buf@ == spec_splice(old(buf)@, at as int, kept.subrange(0, i as int)),
        decreases n - i,
    {
        let b: u8 = if zero { 0u8 } else { chunk[i] };
        buf[at + i] = b;
        i += 1;
        assert(buf@ =~= spec_splice(old(buf)@, at as int, kept.subrange(0, i as int)));
    }
    assert(kept.subrange(0, n as int) =~= kept);
    if zero {
        Ok(())
    } else {
        answer
    }
}

/// The bytes of `buf` from `at` to `at + n`.
fn copy_range(buf: &[u8], at: usize, n: usize) -> (r: Vec<u8>)
    requires
        at + n <= buf@.len(),
    ensures
        r@ == buf@.subrange(at as int, at + n),
{
    let mut out: Vec<u8> = Vec::new();
    let blen = buf.len();
    let mut i: usize = 0;
    while i < n
        invariant
            i <= n,
            blen == buf@.len(),
            at + n <= buf@.len(),
            out@ == buf@.subrange(at as int, at + i),
        decreases n - i,
    {
        out.push(buf[at + i]);
        i += 1;
        assert(out@ =~= buf@.subrange(at as int, at + i));
    }
    out
}

/// Reads `buf.len()` bytes from the position of `seek` through `drv`, one
/// page window at a time, into the buffer in place, advancing the position
/// after each chunk. When `pad` holds, a frame that the driver reports as
/// missing reads as zeros.
fn read_chunks<D: Introspectable>(drv: &D, seek: &mut AddressSeek, buf: &mut [u8], pad: bool) -> (r: Result<usize, MemoryError>)
    requires
        old(buf)@.len() <= u32::MAX,
    ensures
        final(buf)@.len() == old(buf)@.len(),
        final(seek).max_addr() == old(seek).max_addr(),
        final(seek).pos() <= final(seek).max_addr(),
        old(buf)@.len() == 0 ==> r == Ok::<usize, MemoryError>(0) && final(seek).pos() == old(seek).pos() && final(buf)@ == old(buf)@,
        r matches Ok(n) ==> n == old(buf)@.len() && final(seek).pos() == spec_move(old(seek).pos(), old(seek).max_addr(), n as int),
        r is Ok ==> spec_read_placed(*drv, old(seek).pos(), old(seek).max_addr(), old(buf)@, final(buf)@, pad),
        r is Err ==> spec_read_stopped(old(seek).pos(), old(seek).max_addr(), old(buf)@, final(buf)@, final(seek).pos()),
        r matches Err(e) ==> e is Driver && !(pad && e->Driver_0 is FrameNotFound),
{
    proof {
        use_type_invariant(&*seek);
    }
    let ghost start = seek.pos();
    let ghost max = seek.max_addr();
    let ghost before = buf@;
    let ghost len = buf@.len();
    let mut read_remain: usize = buf.len();
    let mut bytes_read: usize = 0;
    let mut failure: Option<DriverError> = None;
    while read_remain > 0
        invariant_except_break
            failure is None,
            forall|i: int| bytes_read <= i < len ==> #[trigger] buf@[i] == before[i],
        invariant
            bytes_read + read_remain == len,
            len <= u32::MAX,
            buf@.len() == len,
            before.len() == len,
            seek.max_addr() == max,
            seek.pos() <= max,
            start <= max,
            seek.pos() == spec_move(start, max, bytes_read as int),
            bytes_read < len ==> spec_is_read_chunk_start(start, max, len as int, 0, bytes_read as int),
            forall|m: int| 0 <= m < bytes_read && #[trigger] spec_is_read_chunk_start(start, max, len as int, 0, m)
                ==> spec_chunk_placed(*drv, start, max, before, buf@, m, pad),
            failure matches Some(e) ==> !(pad && e is FrameNotFound)
                && bytes_read < len
                && forall|i: int| spec_read_chunk_end(start, max, len as int, bytes_read as int) <= i < len ==> #[trigger] buf@[i] == before[i],
        ensures
            failure is None ==> bytes_read == len,
        decreases read_remain,
    {
        let paddr = seek.position();
        let (frame, n) = next_read_chunk(paddr, read_remain);
        let mut chunk = copy_range(buf, bytes_read, n);
        let ghost buf_before = buf@;
        let ghost chunk_before = chunk@;
        let answer = drv.read_frame(frame, chunk.as_mut_slice());
        let ghost answer_g = answer;
        let kept = place_chunk(buf, bytes_read, chunk.as_slice(), answer, pad);
        proof {
            assert forall|m: int| 0 <= m < bytes_read && #[trigger] spec_is_read_chunk_start(start, max, len as int, 0, m)
                implies spec_chunk_placed(*drv, start, max, before, buf@, m, pad) by {
                let e = spec_read_chunk_end(start, max, len as int, m);
                lemma_read_chunks_ordered(start, max, len as int, 0, m, bytes_read as int);
                lemma_read_chunk_start_range(start, max, len as int, 0, m);
                lemma_read_chunk_nonempty(start, max, len as int, m);
                assert(buf@.subrange(m, e) =~= buf_before.subrange(m, e));
            }
        }
        match kept {
            Ok(()) => {},
            Err(e) => {
                failure = Some(e);
                break;
            },
        }
        proof {
            let e = spec_read_chunk_end(start, max, len as int, bytes_read as int);
            assert(e == bytes_read + n);
            assert(before.subrange(bytes_read as int, e) =~= buf_before.subrange(bytes_read as int, e));
            assert(buf@.subrange(bytes_read as int, e) =~= spec_chunk_outcome(answer_g, chunk@, pad).1);
            assert(frame == spec_frame_of(spec_move(start, max, bytes_read as int)));
            if pad && answer_g matches Err(DriverError::FrameNotFound(_)) {
                assert(buf@.subrange(bytes_read as int, e) =~= Seq::new((e - bytes_read) as nat, |i: int| 0u8));
            } else {
                assert(answer_g is Ok);
                let u = answer_g->Ok_0;
                assert(u == ());
                assert(answer_g == Ok::<(), DriverError>(()));
                assert(buf@.subrange(bytes_read as int, e) == chunk@);
                assert(chunk_before =~= before.subrange(bytes_read as int, e));
                assert(drv.frame_read_allows(frame, chunk_before, chunk@, answer_g));
                assert(drv.frame_read_allows(frame, before.subrange(bytes_read as int, e), buf@.subrange(bytes_read as int, e), Ok(())));
            }
            assert(spec_chunk_placed(*drv, start, max, before, buf@, bytes_read as int, pad));
            if bytes_read + n < len {
                lemma_next_read_chunk_start(start, max, len as int, 0, bytes_read as int);
            }
            lemma_forward_moves_compose(start, max, bytes_read as int, n as int);
        }
        seek.seek(SeekFrom::Current(n as i64));
        let ghost prev = bytes_read as int;
        bytes_read += n;
        read_remain -= n;
        proof {
            assert forall|m: int| 0 <= m < bytes_read && #[trigger] spec_is_read_chunk_start(start, max, len as int, 0, m)
                implies spec_chunk_placed(*drv, start, max, before, buf@, m, pad) by {
                if prev < m {
                    lemma_read_chunks_ordered(start, max, len as int, 0, prev, m);
                }
            }
        }
    }
    match failure {
        Some(e) => {
            assert(spec_is_read_chunk_start(start, max, len as int, 0, bytes_read as int));
            Err(MemoryError::Driver(e))
        },
        None => {
            proof {
                assert forall|m: int| #[trigger] spec_is_read_chunk_start(start, max, len as int, 0, m)
                    implies spec_chunk_placed(*drv, start, max, before, buf@, m, pad) by {
                    lemma_read_chunk_start_range(start, max, len as int, 0, m);
                }
            }
            Ok(bytes_read)
        },
    }
}

/// The physical memory of a VM as a byte stream.
pub struct Memory<D: Introspectable> {
    drv: D,
    addr_seek: AddressSeek,
}

impl<D: Introspectable> Memory<D> {
    /// The current position in the stream.
    pub closed spec fn pos(&self) -> u64 {
        self.addr_seek.pos()
    }

    /// The last reachable position.
    pub closed spec fn max_addr(&self) -> u64 {
        self.addr_seek.max_addr()
    }

    /// The driver that the stream reads and writes through.
    pub closed spec fn driver(&self) -> D {
        self.drv
    }

    /// A stream at position 0 over the physical memory of `drv`, whose last
    /// position is the maximum physical address that the driver reports.
    pub fn new(drv: D) -> (r: Result<Self, DriverError>)
        ensures
            r matches Ok(m) ==> m.pos() == 0 && m.driver() == drv,
    {
        let max_addr = drv.get_max_physical_addr();
        Self::from_max_addr(drv, max_addr)
    }

    /// The stream that `new` builds from what the driver answered when asked
    /// for its maximum physical address: at position 0 over `drv`, with that
    /// address as its last position, or the driver's error.
    pub fn from_max_addr(drv: D, max_addr: Result<u64, DriverError>) -> (r: Result<Self, DriverError>)
        ensures
            match max_addr {
                Ok(a) => r matches Ok(m) && m.pos() == 0 && m.max_addr() == a && m.driver() == drv,
                Err(e) => r == Err::<Self, DriverError>(e),
            },
    {
        match max_addr {
            Ok(a) => Ok(Memory { drv, addr_seek: AddressSeek::new(a) }),
            Err(e) => Err(e),
        }
    }

    /// Fill `buf` from the current position, page window by page window: each
    /// chunk is read by the driver in place, from the frame at the current
    /// position, and the position then moves on by the chunk's length,
    /// saturating at the maximum address. Returns the number of bytes read:
    /// all of `buf`, or the first error of the driver, with the position at
    /// the start of the chunk that failed.
    pub fn read(&mut self, buf: &mut [u8]) -> (r: Result<usize, MemoryError>)
        requires
            old(buf)@.len() <= u32::MAX,
        ensures
            old(buf)@.len() == 0 ==> r == Ok::<usize, MemoryError>(0) && final(self).pos() == old(self).pos() && final(buf)@ == old(buf)@,
            final(buf)@.len() == old(buf)@.len(),
            final(self).max_addr() == old(self).max_addr(),
            final(self).driver() == old(self).driver(),
            final(self).pos() <= final(self).max_addr(),
            r matches Ok(n) ==> n == old(buf)@.len() && final(self).pos() == spec_move(old(self).pos(), old(self).max_addr(), n as int),
            r is Ok ==> spec_read_placed(old(self).driver(), old(self).pos(), old(self).max_addr(), old(buf)@, final(buf)@, false),
            r is Err ==> spec_read_stopped(old(self).pos(), old(self).max_addr(), old(buf)@, final(buf)@, final(self).pos()),
            r matches Err(e) ==> e is Driver,
    {
        read_chunks(&self.drv, &mut self.addr_seek, buf, false)
    }

    /// Write `buf` at the current position in chunks of one page size, each
    /// at the position reached after the chunks before it, the position
    /// moving on after each chunk and saturating at the maximum address.
    /// Returns the number of bytes written: all of `buf`, or `WriteFailure`
    /// at the first chunk that the driver fails to write, with the position
    /// at the start of that chunk.
    pub fn write(&mut self, buf: &[u8]) -> (r: Result<usize, MemoryError>)
        ensures
            buf@.len() == 0 ==> r == Ok::<usize, MemoryError>(0) && final(self).pos() == old(self).pos(),
            final(self).max_addr() == old(self).max_addr(),
            final(self).driver() == old(self).driver(),
            final(self).pos() <= final(self).max_addr(),
            r matches Ok(n) ==> n == buf@.len() && final(self).pos() == spec_move(old(self).pos(), old(self).max_addr(), n as int),
            r is Ok ==> spec_written_until(old(self).driver(), old(self).pos(), old(self).max_addr(), buf@, buf@.len() as int),
            r is Err ==> r == Err::<usize, MemoryError>(MemoryError::WriteFailure)
                && exists|m: int| 0 <= m < buf@.len() && m % 4096 == 0
                    && #[trigger] spec_move(old(self).pos(), old(self).max_addr(), m) == final(self).pos()
                    && spec_written_until(old(self).driver(), old(self).pos(), old(self).max_addr(), buf@, m),
    {
        let ghost start = self.addr_seek.pos();
        let ghost max = self.addr_seek.max_addr();
        proof {
            use_type_invariant(&self.addr_seek);
        }
        let mut total: usize = 0;
        let len = buf.len();
        while total < len
            invariant
                total <= len,
                len == buf@.len(),
                self.addr_seek.max_addr() == max,
                self.addr_seek.pos() <= max,
                start <= max,
                start == old(self).addr_seek.pos(),
                max == old(self).addr_seek.max_addr(),
                self.drv == old(self).drv,
                self.addr_seek.pos() == spec_move(start, max, total as int),
                total < len ==> total % 4096 == 0,
                spec_written_until(self.drv, start, max, buf@, total as int),
            decreases len - total,
        {
            let end = next_write_chunk_end(total, len);
            let chunk = slice_subrange(buf, total, end);
            let paddr = self.addr_seek.position();
            let answer = self.drv.write_physical(paddr, chunk);
            let ghost answer_g = answer;
            match answer {
                Ok(()) => {},
                Err(_) => {
                    assert(spec_move(old(self).pos(), old(self).max_addr(), total as int) == self.pos());
                    assert(0 <= total < buf@.len() && total % 4096 == 0);
                    return Err(MemoryError::WriteFailure);
                },
            }
            proof {
                lemma_forward_moves_compose(start, max, total as int, (end - total) as int);
                assert(chunk@ == buf@.subrange(total as int, end as int));
                let u = answer_g->Ok_0;
                assert(u == ());
                assert(answer_g == Ok::<(), DriverError>(()));
                assert(paddr == spec_move(start, max, total as int));
                assert(spec_chunk_written(self.drv, start, max, buf@, total as int));
                assert forall|m: int| 0 <= m < end && m % 4096 == 0 implies #[trigger] spec_chunk_written(self.drv, start, max, buf@, m) by {
                    if m >= total {
                        assert(m == total);
                    }
                }
            }
            self.addr_seek.seek(SeekFrom::Current((end - total) as i64));
            total = end;
        }
        Ok(total)
    }

    /// Nothing is buffered: flushing does nothing.
    pub fn flush(&mut self) -> (r: Result<(), MemoryError>)
        ensures
            *final(self) == *old(self),
            r is Ok,
    {
        Ok(())
    }

    /// Move the position, as `AddressSeek::seek` does.
    pub fn seek(&mut self, from: SeekFrom) -> (r: Result<u64, MemoryError>)
        ensures
            final(self).pos() == spec_seek(old(self).pos(), old(self).max_addr(), from),
            final(self).max_addr() == old(self).max_addr(),
            final(self).driver() == old(self).driver(),
            final(self).pos() <= final(self).max_addr(),
            r == Ok::<u64, MemoryError>(final(self).pos()),
    {
        self.addr_seek.seek(from)
    }
}

/// The physical memory of a VM as a byte stream, in which frames that do
/// not exist read as zeros.
pub struct PaddedMemory<D: Introspectable> {
    drv: D,
    addr_seek: AddressSeek,
}

impl<D: Introspectable> PaddedMemory<D> {
    /// The current position in the stream.
    pub closed spec fn pos(&self) -> u64 {
        self.addr_seek.pos()
    }

    /// The last reachable position.
    pub closed spec fn max_addr(&self) -> u64 {
        self.addr_seek.max_addr()
    }

    /// The driver that the stream reads through.
    pub closed spec fn driver(&self) -> D {
        self.drv
    }

    /// A stream at position 0 over the physical memory of `drv`, whose last
    /// position is the maximum physical address that the driver reports.
    pub fn new(drv: D) -> (r: Result<Self, DriverError>)
        ensures
            r matches Ok(m) ==> m.pos() == 0 && m.driver() == drv,
    {
        let max_addr = drv.get_max_physical_addr();
        Self::from_max_addr(drv, max_addr)
    }

    /// The stream that `new` builds from what the driver answered when asked
    /// for its maximum physical address: at position 0 over `drv`, with that
    /// address as its last position, or the driver's error.
    pub fn from_max_addr(drv: D, max_addr: Result<u64, DriverError>) -> (r: Result<Self, DriverError>)
        ensures
            match max_addr {
                Ok(a) => r matches Ok(m) && m.pos() == 0 && m.max_addr() == a && m.driver() == drv,
                Err(e) => r == Err::<Self, DriverError>(e),
            },
    {
        match max_addr {
            Ok(a) => Ok(PaddedMemory { drv, addr_seek: AddressSeek::new(a) }),
            Err(e) => Err(e),
        }
    }

    /// Fill `buf` from the current position as `Memory::read` does, except
    /// that a frame that the driver reports as missing reads as zeros.
    pub fn read(&mut self, buf: &mut [u8]) -> (r: Result<usize, MemoryError>)
        requires
            old(buf)@.len() <= u32::MAX,
        ensures
            old(buf)@.len() == 0 ==> r == Ok::<usize, MemoryError>(0) && final(self).pos() == old(self).pos() && final(buf)@ == old(buf)@,
            final(buf)@.len() == old(buf)@.len(),
            final(self).max_addr() == old(self).max_addr(),
            final(self).driver() == old(self).driver(),
            final(self).pos() <= final(self).max_addr(),
            r matches Ok(n) ==> n == old(buf)@.len() && final(self).pos() == spec_move(old(self).pos(), old(self).max_addr(), n as int),
            r is Ok ==> spec_read_placed(old(self).driver(), old(self).pos(), old(self).max_addr(), old(buf)@, final(buf)@, true),
            r is Err ==> spec_read_stopped(old(self).pos(), old(self).max_addr(), old(buf)@, final(buf)@, final(self).pos()),
            r matches Err(e) ==> e is Driver && !(e->Driver_0 is FrameNotFound),
    {
        read_chunks(&self.drv, &mut self.addr_seek, buf, true)
    }

    /// Move the position, as `AddressSeek::seek` does.
    pub fn seek(&mut self, from: SeekFrom) -> (r: Result<u64, MemoryError>)
        ensures
            final(self).pos() == spec_seek(old(self).pos(), old(self).max_addr(), from),
            final(self).max_addr() == old(self).max_addr(),
            final(self).driver() == old(self).driver(),
            final(self).pos() <= final(self).max_addr(),
            r == Ok::<u64, MemoryError>(final(self).pos()),
    {
        self.addr_seek.seek(from)
    }
}

} // verus!
