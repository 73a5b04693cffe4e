//! The stdio platform: the named streams, their global slots and leases, stream
//! objects and pipes, as a mathematical state, and the operations on it.
use vstd::prelude::*;

verus! {

/// One of the process's two conventional text output channels.
#[derive(Clone, Copy, PartialEq, Eq, Structural, Debug)]
pub enum StreamName {
    Output,
    Error,
}

/// The state of a named stream's cooperative lock.
#[derive(Clone, Copy, PartialEq, Eq, Structural, Debug)]
pub enum LeaseState {
    Free,
    Held,
    /// A holder ended abnormally while holding it: no later acquisition succeeds.
    Poisoned,
}

/// Failures of a capture.
#[derive(Clone, Copy, PartialEq, Eq, Structural, Debug)]
pub enum CaptureError {
    /// The stream's lock is unusable for good (it was poisoned).
    Deadlock,
    /// Creating the pipe, opening or closing a stream, or reading the pipe failed.
    Io,
    /// The captured bytes are not UTF-8.
    Decode,
}

/// Acquiring a named stream's lease failed because the lock is poisoned.
#[derive(Clone, Copy, PartialEq, Eq, Structural, Debug)]
pub struct LockPoisoned {
    pub stream: StreamName,
}

/// The two ends of a pipe, as raw handles.
#[derive(Clone, Copy, PartialEq, Eq, Structural, Debug)]
pub struct PipeEnds {
    pub reader: u64,
    pub writer: u64,
}

/// A buffered output stream object.
pub struct StreamObj {
    /// The reader end of the pipe the stream drains into; `None` for a terminal.
    pub pipe: Option<u64>,
    /// Bytes written and not yet flushed.
    pub buffer: Seq<u8>,
    pub open: bool,
    /// Whether the stream-level exclusive lock is held on it.
    pub locked: bool,
}

/// The whole stdio state of the process.
pub struct StdioState {
    pub out_slot: u64,
    pub err_slot: u64,
    pub out_lease: LeaseState,
    pub err_lease: LeaseState,
    /// Stream objects by handle.
    pub objects: Map<u64, StreamObj>,
    /// Bytes in each pipe, by reader end.
    pub pipes: Map<u64, Seq<u8>>,
    /// The reader end that belongs to each writer end.
    pub writers: Map<u64, u64>,
}

impl StdioState {
    pub open spec fn slot(self, n: StreamName) -> u64 {
        match n {
            StreamName::Output => self.out_slot,
            StreamName::Error => self.err_slot,
        }
    }

    pub open spec fn lease(self, n: StreamName) -> LeaseState {
        match n {
            StreamName::Output => self.out_lease,
            StreamName::Error => self.err_lease,
        }
    }

    pub open spec fn with_slot(self, n: StreamName, h: u64) -> StdioState {
        match n {
            StreamName::Output => StdioState { out_slot: h, ..self },
            StreamName::Error => StdioState { err_slot: h, ..self },
        }
    }

    pub open spec fn with_lease(self, n: StreamName, l: LeaseState) -> StdioState {
        match n {
            StreamName::Output => StdioState { out_lease: l, ..self },
            StreamName::Error => StdioState { err_lease: l, ..self },
        }
    }

    /// A new pipe, empty.
    pub open spec fn with_pipe(self, e: PipeEnds) -> StdioState {
        StdioState {
            pipes: self.pipes.insert(e.reader, Seq::empty()),
            writers: self.writers.insert(e.writer, e.reader),
            ..self
        }
    }

    /// A new open stream object `h` over the pipe of writer end `w`.
    pub open spec fn with_stream(self, h: u64, w: u64) -> StdioState {
        StdioState {
            objects: self.objects.insert(
                h,
                StreamObj {
                    pipe: if self.writers.contains_key(w) { Some(self.writers[w]) } else { None },
                    buffer: Seq::empty(),
                    open: true,
                    locked: false,
                },
            ),
            ..self
        }
    }

    pub open spec fn with_lock(self, h: u64, locked: bool) -> StdioState {
        if self.objects.contains_key(h) {
            StdioState {
                objects: self.objects.insert(h, StreamObj { locked, ..self.objects[h] }),
                ..self
            }
        } else {
            self
        }
    }

    /// A write through the write primitive of stream `n`: the bytes go to the
    /// stream object that the slot designates.
    pub open spec fn after_write(self, n: StreamName, bytes: Seq<u8>) -> StdioState {
        let h = self.slot(n);
        if self.objects.contains_key(h) && self.objects[h].open {
            StdioState {
                objects: self.objects.insert(
                    h,
                    StreamObj { buffer: self.objects[h].buffer + bytes, ..self.objects[h] },
                ),
                ..self
            }
        } else {
            self
        }
    }

    /// The pipes once the first `k` bytes of the buffer of stream object `h`
    /// are flushed.
    pub open spec fn flushed_pipes(self, h: u64, k: int) -> Map<u64, Seq<u8>> {
        let o = self.objects[h];
        match o.pipe {
            Some(p) => if self.pipes.contains_key(p) {
                self.pipes.insert(p, self.pipes[p] + o.buffer.take(k))
            } else {
                self.pipes
            },
            None => self.pipes,
        }
    }

    /// Stream object `h` closed after only the first `k` bytes of its buffer
    /// reached its pipe.
    pub open spec fn after_close_part(self, h: u64, k: int) -> StdioState {
        if self.objects.contains_key(h) && self.objects[h].open {
            StdioState {
                objects: self.objects.insert(
                    h,
                    StreamObj { buffer: Seq::empty(), open: false, ..self.objects[h] },
                ),
                pipes: self.flushed_pipes(h, k),
                ..self
            }
        } else {
            self
        }
    }

    /// Stream object `h` closed: its whole buffer is flushed into its pipe first.
    pub open spec fn after_close(self, h: u64) -> StdioState {
        self.after_close_part(h, self.objects[h].buffer.len() as int)
    }

    /// The pipe of reader `r` read to its end.
    pub open spec fn after_read(self, r: u64) -> StdioState {
        StdioState { pipes: self.pipes.insert(r, Seq::empty()), ..self }
    }

    /// The state once a swap of stream `n` to a new stream object `h` over
    /// writer `w` is installed: `h` is made, the displaced object is locked, and
    /// the slot designates `h`.
    pub open spec fn swapped(self, n: StreamName, h: u64, w: u64) -> StdioState {
        self.with_stream(h, w).with_lock(self.slot(n), true).with_slot(n, h)
    }

    /// The slot of `n` given back to `orig` and the lock on `orig` released.
    pub open spec fn restored(self, n: StreamName, orig: u64) -> StdioState {
        self.with_slot(n, orig).with_lock(orig, false)
    }
}

/// A platform's stdio: the primitives that the capture engine is built on.
pub trait Stdio {
    /// The platform's stdio state.
    spec fn state(&self) -> StdioState;

    /// Takes the lease of stream `n`, waiting while another holder has it.
    fn acquire(&mut self, n: StreamName) -> (r: Result<(), LockPoisoned>)
        requires
            old(self).state().lease(n) != LeaseState::Held,
        ensures
            old(self).state().lease(n) == LeaseState::Poisoned ==> r == Err::<(), LockPoisoned>(
                LockPoisoned { stream: n },
            ) && final(self).state() == old(self).state(),
            old(self).state().lease(n) == LeaseState::Free ==> r is Ok && final(self).state()
                == old(self).state().with_lease(n, LeaseState::Held),
    ;

    /// Gives the lease of stream `n` back.
    fn release(&mut self, n: StreamName)
        ensures
            old(self).state().lease(n) == LeaseState::Held ==> final(self).state() == old(
                self,
            ).state().with_lease(n, LeaseState::Free),
            old(self).state().lease(n) != LeaseState::Held ==> final(self).state() == old(
                self,
            ).state(),
    ;

    /// Creates an anonymous pipe.
    fn pipe(&mut self) -> (r: Result<PipeEnds, CaptureError>)
        ensures
            match r {
                Ok(e) => !old(self).state().pipes.contains_key(e.reader)
                    && !old(self).state().writers.contains_key(e.writer)
                    && final(self).state() == old(self).state().with_pipe(e),
                Err(e) => e == CaptureError::Io && final(self).state() == old(self).state(),
            },
    ;

    /// Opens a buffered stream in binary write mode over writer end `w`; on
    /// failure the writer end is closed.
    fn open_writer(&mut self, w: u64) -> (r: Result<u64, CaptureError>)
        ensures
            match r {
                Ok(h) => !old(self).state().objects.contains_key(h) && h != old(self).state().slot(
                    StreamName::Output,
                ) && h != old(self).state().slot(StreamName::Error) && final(self).state()
                    == old(self).state().with_stream(h, w),
                Err(e) => e == CaptureError::Io && final(self).state() == old(self).state(),
            },
    ;

    /// Takes the stream-level exclusive lock of stream object `h`.
    fn lock_stream(&mut self, h: u64)
        ensures
            final(self).state() == old(self).state().with_lock(h, true),
    ;

    /// Releases the stream-level exclusive lock of stream object `h`.
    fn unlock_stream(&mut self, h: u64)
        ensures
            final(self).state() == old(self).state().with_lock(h, false),
    ;

    /// The stream object in the global slot of stream `n`.
    fn current(&self, n: StreamName) -> (h: u64)
        ensures
            h == self.state().slot(n),
    ;

    /// Puts `h` in the global slot of stream `n` and returns what was there.
    fn exchange(&mut self, n: StreamName, h: u64) -> (prev: u64)
        ensures
            prev == old(self).state().slot(n),
            final(self).state() == old(self).state().with_slot(n, h),
    ;

    /// Closes stream object `h`, flushing its buffer into its pipe. Where
    /// closing fails, the stream is closed all the same, and part of its buffer
    /// may have reached the pipe.
    fn close(&mut self, h: u64) -> (r: Result<(), CaptureError>)
        ensures
            r is Ok ==> final(self).state() == old(self).state().after_close(h),
            r is Err ==> r == Err::<(), CaptureError>(CaptureError::Io) && exists|k: int|
                0 <= k <= old(self).state().objects[h].buffer.len() && final(self).state()
                    == #[trigger] old(self).state().after_close_part(h, k),
    ;

    /// Reads the pipe of reader end `rd` to its end.
    fn read_all(&mut self, rd: u64) -> (r: Result<Vec<u8>, CaptureError>)
        ensures
            match r {
                Ok(b) => old(self).state().pipes.contains_key(rd) && b@ == old(
                    self,
                ).state().pipes[rd] && final(self).state() == old(self).state().after_read(rd),
                Err(e) => e == CaptureError::Io && final(self).state() == old(self).state(),
            },
    ;

    /// The write primitive of stream `n`: writes to whichever stream object the
    /// slot designates.
    fn write(&mut self, n: StreamName, bytes: &[u8])
        ensures
            final(self).state() == old(self).state().after_write(n, bytes@),
    ;
}

} // verus!
