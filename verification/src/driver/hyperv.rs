//! The Hyper-V driver: selection of the handles owned by the VM worker
//! process among the handles of the system.
use vstd::prelude::*;

verus! {

/// An iterator over the handles that the process `pid` owns, among the
/// entries (owner process id, handle value) of the system handle table.
pub struct VmwpHandleIter {
    pid: u32,
    handles: Vec<(u16, u16)>,
    index: usize,
}

impl VmwpHandleIter {
    /// The process whose handles are listed.
    pub closed spec fn pid(&self) -> u32 {
        self.pid
    }

    /// The entries of the handle table.
    pub closed spec fn entries(&self) -> Seq<(u16, u16)> {
        self.handles@
    }

    /// The position of the next entry to look at.
    pub closed spec fn position(&self) -> int {
        self.index as int
    }

    /// An iterator over the handles of `pid` among `handles`.
    pub fn new(pid: u32, handles: Vec<(u16, u16)>) -> (r: VmwpHandleIter)
        ensures
            r.pid() == pid,
            r.entries() == handles@,
            r.position() == 0,
    {
        VmwpHandleIter { pid, handles, index: 0 }
    }

    /// The next handle owned by the process, or `None` when no entry left is
    /// owned by it. Process ids are compared as 16 bit values.
    pub fn next_handle(&mut self) -> (r: Option<u16>)
        requires
            old(self).pid() <= u16::MAX || old(self).position() >= old(self).entries().len(),
            0 <= old(self).position() <= old(self).entries().len(),
        ensures
            final(self).pid() == old(self).pid(),
            final(self).entries() == old(self).entries(),
            0 <= final(self).position() <= final(self).entries().len(),
            r matches Some(h) ==> {
                let i = final(self).position() - 1;
                &&& old(self).position() <= i
                &&& old(self).entries()[i] == (old(self).pid() as u16, h)
                &&& forall|j: int| old(self).position() <= j < i ==> #[trigger] old(self).entries()[j].0 != old(self).pid()
            },
            r is None ==> final(self).position() == old(self).entries().len()
                && forall|j: int| old(self).position() <= j < old(self).entries().len() ==> #[trigger] old(self).entries()[j].0 != old(self).pid(),
    {
        let ghost start = self.index;
        while self.index < self.handles.len()
            invariant
                self.pid == old(self).pid,
                self.handles == old(self).handles,
                start == old(self).index,
                start <= self.index <= self.handles@.len(),
                self.pid <= u16::MAX || start >= self.handles@.len(),
                forall|j: int| start <= j < self.index ==> #[trigger] self.handles@[j].0 != self.pid,
            decreases self.handles@.len() - self.index,
        {
            let entry = self.handles[self.index];
            if entry.0 as u32 == self.pid {
                self.index = self.index + 1;
                return Some(entry.1);
            }
            self.index = self.index + 1;
        }
        None
    }
}

} // verus!
