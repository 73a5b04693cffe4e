//! An in-memory stdio platform: two terminal streams, stream objects and pipes
//! held in vectors, with a stream-level lock flag on each stream object.
use vstd::prelude::*;
use crate::stdio::{
    CaptureError, LeaseState, LockPoisoned, PipeEnds, StdioState, Stdio, StreamName, StreamObj,
};

verus! {

/// No more than this many stream objects, or pipes, can be made.
pub const MAX_HANDLES: usize = 0xffff_ffff;

struct MemObj {
    pipe: Option<u64>,
    buf: Vec<u8>,
    open: bool,
    locked: bool,
}

impl MemObj {
    spec fn view(&self) -> StreamObj {
        StreamObj { pipe: self.pipe, buffer: self.buf@, open: self.open, locked: self.locked }
    }
}

/// The process's stdio kept in memory.
pub struct MemStdio {
    out_slot: u64,
    err_slot: u64,
    out_lease: LeaseState,
    err_lease: LeaseState,
    objs: Vec<MemObj>,
    pipes: Vec<Vec<u8>>,
}

fn copy_bytes(bytes: &[u8]) -> (r: Vec<u8>)
    ensures
        r@ == bytes@,
{
    let mut r: Vec<u8> = Vec::new();
    let mut i: usize = 0;
    while i < bytes.len()
        invariant
            i <= bytes@.len(),
            r@ == bytes@.subrange(0, i as int),
        decreases bytes@.len() - i,
    {
        r.push(bytes[i]);
        i = i + 1;
    }
    assert(r@ =~= bytes@);
    r
}

impl MemStdio {
    /// Stdio with the output stream on terminal object 0 and the error stream
    /// on terminal object 1, both leases free, and no pipe.
    pub fn new() -> (r: MemStdio)
        ensures
            r.state().slot(StreamName::Output) == 0,
            r.state().slot(StreamName::Error) == 1,
            r.state().lease(StreamName::Output) == LeaseState::Free,
            r.state().lease(StreamName::Error) == LeaseState::Free,
            r.state().objects.dom() == set![0u64, 1u64],
            r.state().objects[0] == (StreamObj {
                pipe: None,
                buffer: Seq::empty(),
                open: true,
                locked: false,
            }),
            r.state().objects[1] == (StreamObj {
                pipe: None,
                buffer: Seq::empty(),
                open: true,
                locked: false,
            }),
            r.state().pipes.is_empty(),
            r.state().writers.is_empty(),
    {
        let mut objs: Vec<MemObj> = Vec::new();
        objs.push(MemObj { pipe: None, buf: Vec::new(), open: true, locked: false });
        objs.push(MemObj { pipe: None, buf: Vec::new(), open: true, locked: false });
        let r = MemStdio {
            out_slot: 0,
            err_slot: 1,
            out_lease: LeaseState::Free,
            err_lease: LeaseState::Free,
            objs,
            pipes: Vec::new(),
        };
        assert(r.state().objects.dom() =~= set![0u64, 1u64]);
        assert(r.state().pipes =~= Map::empty());
        assert(r.state().writers =~= Map::empty());
        r
    }

    fn lease_of(&self, n: StreamName) -> (l: LeaseState)
        ensures
            l == self.state().lease(n),
    {
        match n {
            StreamName::Output => self.out_lease,
            StreamName::Error => self.err_lease,
        }
    }

    fn set_lease(&mut self, n: StreamName, l: LeaseState)
        ensures
            final(self).state() == old(self).state().with_lease(n, l),
    {
        match n {
            StreamName::Output => self.out_lease = l,
            StreamName::Error => self.err_lease = l,
        }
        assert(self.state().objects =~= old(self).state().with_lease(n, l).objects);
        assert(self.state().pipes =~= old(self).state().with_lease(n, l).pipes);
    }

    /// Marks the lease of stream `n`, which must be held, as poisoned: its
    /// holder ended without giving it back.
    pub fn poison(&mut self, n: StreamName)
        ensures
            old(self).state().lease(n) == LeaseState::Held ==> final(self).state() == old(
                self,
            ).state().with_lease(n, LeaseState::Poisoned),
            old(self).state().lease(n) != LeaseState::Held ==> final(self).state() == old(
                self,
            ).state(),
    {
        if self.lease_of(n) == LeaseState::Held {
            self.set_lease(n, LeaseState::Poisoned);
        }
    }

    /// The bytes buffered in stream object `h`, or `None` where there is no
    /// such object.
    pub fn buffered(&self, h: u64) -> (r: Option<Vec<u8>>)
        ensures
            match r {
                Some(b) => self.state().objects.contains_key(h) && b@ == self.state().objects[h].buffer,
                None => !self.state().objects.contains_key(h),
            },
    {
        if h < self.objs.len() as u64 {
            Some(copy_bytes(self.objs[h as usize].buf.as_slice()))
        } else {
            None
        }
    }

    /// Whether stream object `h` is open.
    pub fn is_open(&self, h: u64) -> (r: bool)
        ensures
            r == (self.state().objects.contains_key(h) && self.state().objects[h].open),
    {
        h < self.objs.len() as u64 && self.objs[h as usize].open
    }

    /// Whether stream object `h` holds the stream-level lock.
    pub fn is_locked(&self, h: u64) -> (r: bool)
        ensures
            r == (self.state().objects.contains_key(h) && self.state().objects[h].locked),
    {
        h < self.objs.len() as u64 && self.objs[h as usize].locked
    }
}

impl Stdio for MemStdio {
    closed spec fn state(&self) -> StdioState {
        StdioState {
            out_slot: self.out_slot,
            err_slot: self.err_slot,
            out_lease: self.out_lease,
            err_lease: self.err_lease,
            objects: Map::new(|h: u64| h < self.objs@.len(), |h: u64| self.objs@[h as int].view()),
            pipes: Map::new(|p: u64| p < self.pipes@.len(), |p: u64| self.pipes@[p as int]@),
            writers: Map::new(|p: u64| p < self.pipes@.len(), |p: u64| p),
        }
    }

    fn acquire(&mut self, n: StreamName) -> (r: Result<(), LockPoisoned>) {
        if self.lease_of(n) == LeaseState::Poisoned {
            Err(LockPoisoned { stream: n })
        } else {
            self.set_lease(n, LeaseState::Held);
            Ok(())
        }
    }

    fn release(&mut self, n: StreamName) {
        if self.lease_of(n) == LeaseState::Held {
            self.set_lease(n, LeaseState::Free);
        }
    }

    fn pipe(&mut self) -> (r: Result<PipeEnds, CaptureError>) {
        if self.pipes.len() >= MAX_HANDLES {
            return Err(CaptureError::Io);
        }
        let p = self.pipes.len() as u64;
        self.pipes.push(Vec::new());
        let e = PipeEnds { reader: p, writer: p };
        assert(self.state().pipes =~= old(self).state().with_pipe(e).pipes);
        assert(self.state().writers =~= old(self).state().with_pipe(e).writers);
        assert(self.state().objects =~= old(self).state().with_pipe(e).objects);
        Ok(e)
    }

    fn open_writer(&mut self, w: u64) -> (r: Result<u64, CaptureError>) {
        if self.objs.len() >= MAX_HANDLES {
            return Err(CaptureError::Io);
        }
        let h = self.objs.len() as u64;
        if h == self.out_slot || h == self.err_slot {
            return Err(CaptureError::Io);
        }
        let pipe = if w < self.pipes.len() as u64 {
            Some(w)
        } else {
            None
        };
        self.objs.push(MemObj { pipe, buf: Vec::new(), open: true, locked: false });
        assert(self.state().objects =~= old(self).state().with_stream(h, w).objects);
        assert(self.state().pipes =~= old(self).state().with_stream(h, w).pipes);
        assert(self.state().writers =~= old(self).state().with_stream(h, w).writers);
        Ok(h)
    }

    fn lock_stream(&mut self, h: u64) {
        if h < self.objs.len() as u64 {
            self.objs[h as usize].locked = true;
        }
        assert(self.state().objects =~= old(self).state().with_lock(h, true).objects);
        assert(self.state().pipes =~= old(self).state().with_lock(h, true).pipes);
    }

    fn unlock_stream(&mut self, h: u64) {
        if h < self.objs.len() as u64 {
            self.objs[h as usize].locked = false;
        }
        assert(self.state().objects =~= old(self).state().with_lock(h, false).objects);
        assert(self.state().pipes =~= old(self).state().with_lock(h, false).pipes);
    }

    fn current(&self, n: StreamName) -> (h: u64) {
        match n {
            StreamName::Output => self.out_slot,
            StreamName::Error => self.err_slot,
        }
    }

    fn exchange(&mut self, n: StreamName, h: u64) -> (prev: u64) {
        let prev = self.current(n);
        match n {
            StreamName::Output => self.out_slot = h,
            StreamName::Error => self.err_slot = h,
        }
        assert(self.state().objects =~= old(self).state().with_slot(n, h).objects);
        assert(self.state().pipes =~= old(self).state().with_slot(n, h).pipes);
        prev
    }

    fn close(&mut self, h: u64) -> (r: Result<(), CaptureError>) {
        if h < self.objs.len() as u64 && self.objs[h as usize].open {
            let hi = h as usize;
            assert(self.objs@[hi as int].buf@.take(self.objs@[hi as int].buf@.len() as int)
                =~= self.objs@[hi as int].buf@);
            let mut b: Vec<u8> = Vec::new();
            core::mem::swap(&mut self.objs[hi].buf, &mut b);
            self.objs[hi].open = false;
            match self.objs[hi].pipe {
                Some(p) => {
                    if p < self.pipes.len() as u64 {
                        self.pipes[p as usize].append(&mut b);
                    }
                },
                None => {},
            }
        }
        assert(self.state().objects =~= old(self).state().after_close(h).objects);
        assert(self.state().pipes =~= old(self).state().after_close(h).pipes);
        Ok(())
    }

    fn read_all(&mut self, rd: u64) -> (r: Result<Vec<u8>, CaptureError>) {
        if rd < self.pipes.len() as u64 {
            let mut b: Vec<u8> = Vec::new();
            core::mem::swap(&mut self.pipes[rd as usize], &mut b);
            assert(self.state().pipes =~= old(self).state().after_read(rd).pipes);
            assert(self.state().objects =~= old(self).state().after_read(rd).objects);
            Ok(b)
        } else {
            Err(CaptureError::Io)
        }
    }

    fn write(&mut self, n: StreamName, bytes: &[u8]) {
        let h = self.current(n);
        if h < self.objs.len() as u64 && self.objs[h as usize].open {
            let mut b = copy_bytes(bytes);
            self.objs[h as usize].buf.append(&mut b);
        }
        assert(self.state().objects =~= old(self).state().after_write(n, bytes@).objects);
        assert(self.state().pipes =~= old(self).state().after_write(n, bytes@).pipes);
    }
}

} // verus!
