//! The capture engine: leases on the named streams, the swap of a stream for a
//! pipe-backed one and its restoration, and the capture sessions built on them.
use vstd::prelude::*;
use vstd::string::StringSliceAdditionalSpecFns;
use crate::lemmas::capturing;
use crate::stdio::{CaptureError, LeaseState, LockPoisoned, PipeEnds, Stdio, StdioState, StreamName};

verus! {

/// What `bytes` decode to as UTF-8 text, or `None` where they are not UTF-8.
pub uninterp spec fn utf8_text(bytes: Seq<u8>) -> Option<Seq<char>>;

/// Relies on `String::from_utf8`: the bytes as text where they are valid UTF-8,
/// an error where they are not.
#[verifier::external_body]
fn decode(bytes: Vec<u8>) -> (r: Result<String, CaptureError>)
    ensures
        match r {
            Ok(s) => utf8_text(bytes@) == Some(s@),
            Err(e) => e == CaptureError::Decode && utf8_text(bytes@) is None,
        },
{
    String::from_utf8(bytes).map_err(|_| CaptureError::Decode)
}

/// Writes `text` and then a newline through the write primitive of stream `n`.
pub fn puts<P: Stdio>(io: &mut P, n: StreamName, text: &str)
    ensures
        final(io).state() == old(io).state().after_write(n, text.spec_bytes()).after_write(
            n,
            seq![10u8],
        ),
{
    io.write(n, text.as_bytes());
    let mut newline: Vec<u8> = Vec::new();
    newline.push(10u8);
    assert(newline@ =~= seq![10u8]);
    io.write(n, newline.as_slice());
}

/// The lease of a named stream: while it is held, its holder alone may change
/// the stream's global slot.
pub struct LentFile {
    name: StreamName,
}

impl LentFile {
    pub closed spec fn stream(&self) -> StreamName {
        self.name
    }

    pub fn name(&self) -> (r: StreamName)
        ensures
            r == self.stream(),
    {
        self.name
    }
}

/// Acquires the lease of stream `n`.
fn lend<P: Stdio>(io: &mut P, n: StreamName) -> (r: Result<LentFile, LockPoisoned>)
    requires
        old(io).state().lease(n) != LeaseState::Held,
    ensures
        match r {
            Ok(l) => l.stream() == n && old(io).state().lease(n) == LeaseState::Free
                && final(io).state() == old(io).state().with_lease(n, LeaseState::Held),
            Err(e) => e == LockPoisoned { stream: n } && old(io).state().lease(n)
                == LeaseState::Poisoned && final(io).state() == old(io).state(),
        },
{
    match io.acquire(n) {
        Ok(()) => Ok(LentFile { name: n }),
        Err(e) => Err(e),
    }
}

/// Acquires the lease of the output stream.
pub fn stdout_mut<P: Stdio>(io: &mut P) -> (r: Result<LentFile, LockPoisoned>)
    requires
        old(io).state().lease(StreamName::Output) != LeaseState::Held,
    ensures
        match r {
            Ok(l) => l.stream() == StreamName::Output && old(io).state().lease(StreamName::Output)
                == LeaseState::Free && final(io).state() == old(io).state().with_lease(
                StreamName::Output,
                LeaseState::Held,
            ),
            Err(e) => e == LockPoisoned { stream: StreamName::Output } && old(io).state().lease(
                StreamName::Output,
            ) == LeaseState::Poisoned && final(io).state() == old(io).state(),
        },
{
    lend(io, StreamName::Output)
}

/// Acquires the lease of the error stream.
pub fn stderr_mut<P: Stdio>(io: &mut P) -> (r: Result<LentFile, LockPoisoned>)
    requires
        old(io).state().lease(StreamName::Error) != LeaseState::Held,
    ensures
        match r {
            Ok(l) => l.stream() == StreamName::Error && old(io).state().lease(StreamName::Error)
                == LeaseState::Free && final(io).state() == old(io).state().with_lease(
                StreamName::Error,
                LeaseState::Held,
            ),
            Err(e) => e == LockPoisoned { stream: StreamName::Error } && old(io).state().lease(
                StreamName::Error,
            ) == LeaseState::Poisoned && final(io).state() == old(io).state(),
        },
{
    lend(io, StreamName::Error)
}

/// The state once a swap of stream `n` is ended, from state `s`: the slot given
/// back to `orig` and the lock on `orig` released, the substitute `sub` closed
/// after the first `k` bytes of its buffer reached its pipe, and the lease
/// given back.
pub open spec fn ended_part(s: StdioState, n: StreamName, orig: u64, sub: u64, k: int) -> StdioState {
    let c = s.restored(n, orig).after_close_part(sub, k);
    if c.lease(n) == LeaseState::Held {
        c.with_lease(n, LeaseState::Free)
    } else {
        c
    }
}

/// The state once a swap of stream `n` is ended with the whole buffer of the
/// substitute `sub` flushed into its pipe.
pub open spec fn ended(s: StdioState, n: StreamName, orig: u64, sub: u64) -> StdioState {
    ended_part(s, n, orig, sub, s.restored(n, orig).objects[sub].buffer.len() as int)
}

/// Pipe `e` and stream object `h` are new in state `s`, and `h` is not what
/// the slot of `n` designates.
pub open spec fn fresh(s: StdioState, n: StreamName, e: PipeEnds, h: u64) -> bool {
    &&& !s.pipes.contains_key(e.reader)
    &&& !s.writers.contains_key(e.writer)
    &&& !s.objects.contains_key(h)
    &&& h != s.slot(n)
}

/// A capture of `n` from state `pre`, over new pipe `e` and new substitute
/// `h`: the unit of work was handed the platform in state `start`, with the
/// substitute installed, and returned it in state `mid`; the swap then ended
/// in `post`, with the whole buffer flushed.
pub open spec fn captured(
    pre: StdioState,
    n: StreamName,
    e: PipeEnds,
    h: u64,
    start: StdioState,
    mid: StdioState,
    post: StdioState,
) -> bool {
    &&& fresh(pre, n, e, h)
    &&& start == capturing(pre, n, e, h)
    &&& post == ended(mid, n, pre.slot(n), h)
}

/// As `captured`, but closing the substitute failed after its first `k`
/// bytes reached the pipe.
pub open spec fn captured_part(
    pre: StdioState,
    n: StreamName,
    e: PipeEnds,
    h: u64,
    start: StdioState,
    mid: StdioState,
    k: int,
    post: StdioState,
) -> bool {
    &&& fresh(pre, n, e, h)
    &&& start == capturing(pre, n, e, h)
    &&& 0 <= k <= mid.restored(n, pre.slot(n)).objects[h].buffer.len()
    &&& post == ended_part(mid, n, pre.slot(n), h, k)
}

/// A capture of `n` from `pre` failed before the unit of work ran, leaving
/// `post`: the pipe could not be made, or the substitute could not be opened;
/// only the lease was given back.
pub open spec fn failed_early(pre: StdioState, n: StreamName, post: StdioState) -> bool {
    ||| post == pre.with_lease(n, LeaseState::Free)
    ||| exists|e: PipeEnds|
        !pre.pipes.contains_key(e.reader) && !pre.writers.contains_key(e.writer) && post
            == #[trigger] pre.with_pipe(e).with_lease(n, LeaseState::Free)
}

/// A named stream swapped for a pipe-backed stream object, with what it takes
/// to undo the swap once.
pub struct SwapFile {
    /// The stream object that was in the slot before the swap.
    swapped: u64,
    /// The pipe-backed stream object installed in its place.
    substitute: u64,
    target: LentFile,
    ended: bool,
}

impl SwapFile {
    pub closed spec fn original(&self) -> u64 {
        self.swapped
    }

    pub closed spec fn installed(&self) -> u64 {
        self.substitute
    }

    pub closed spec fn stream(&self) -> StreamName {
        self.target.name
    }

    pub closed spec fn is_ended(&self) -> bool {
        self.ended
    }

    /// Swaps the stream of `target` for a new stream object over writer end
    /// `fd`: opens the new stream, locks the displaced one, and exchanges the
    /// slot. Where the new stream cannot be opened, nothing is swapped and the
    /// lease is given back.
    pub fn new<P: Stdio>(io: &mut P, fd: u64, target: LentFile) -> (r: Result<
        SwapFile,
        CaptureError,
    >)
        requires
            old(io).state().lease(target.stream()) == LeaseState::Held,
        ensures
            match r {
                Ok(s) => {
                    &&& s.stream() == target.stream()
                    &&& !s.is_ended()
                    &&& s.original() == old(io).state().slot(target.stream())
                    &&& !old(io).state().objects.contains_key(s.installed())
                    &&& s.installed() != s.original()
                    &&& final(io).state() == old(io).state().swapped(
                        target.stream(),
                        s.installed(),
                        fd,
                    )
                },
                Err(e) => e == CaptureError::Io && final(io).state() == old(
                    io,
                ).state().with_lease(target.stream(), LeaseState::Free),
            },
    {
        let n = target.name;
        match io.open_writer(fd) {
            Ok(file) => {
                let orig = io.current(n);
                io.lock_stream(orig);
                let prev = io.exchange(n, file);
                Ok(SwapFile { swapped: prev, substitute: file, target, ended: false })
            },
            Err(e) => {
                io.release(n);
                Err(e)
            },
        }
    }

    /// Ends the swap: gives the slot back to the original stream object and
    /// unlocks it, then closes the substitute, which flushes it into the pipe,
    /// then gives the lease back. The slot is restored even where closing
    /// fails. A swap that has ended is left as it is: the substitute is closed
    /// once only.
    pub fn end<P: Stdio>(&mut self, io: &mut P) -> (r: Result<(), CaptureError>)
        ensures
            final(self).is_ended(),
            final(self).stream() == old(self).stream(),
            final(self).original() == old(self).original(),
            final(self).installed() == old(self).installed(),
            old(self).is_ended() ==> r is Ok && final(io).state() == old(io).state(),
            !old(self).is_ended() ==> match r {
                Ok(()) => final(io).state() == ended(
                    old(io).state(),
                    old(self).stream(),
                    old(self).original(),
                    old(self).installed(),
                ),
                Err(e) => e == CaptureError::Io && exists|k: int|
                    0 <= k <= old(io).state().restored(
                        old(self).stream(),
                        old(self).original(),
                    ).objects[old(self).installed()].buffer.len() && final(io).state()
                        == #[trigger] ended_part(
                        old(io).state(),
                        old(self).stream(),
                        old(self).original(),
                        old(self).installed(),
                        k,
                    ),
            },
    {
        if self.ended {
            return Ok(());
        }
        self.ended = true;
        let n = self.target.name;
        let ghost s0 = io.state();
        let _ = io.exchange(n, self.swapped);
        io.unlock_stream(self.swapped);
        let ghost t = io.state();
        let r = io.close(self.substitute);
        let ghost c = io.state();
        io.release(n);
        proof {
            if r is Err {
                let k = choose|k: int|
                    0 <= k <= t.objects[self.substitute].buffer.len() && c
                        == #[trigger] t.after_close_part(self.substitute, k);
                assert(io.state() == ended_part(s0, n, self.swapped, self.substitute, k));
            }
        }
        r
    }
}

/// Runs `f` with the stream of `target` swapped for a new pipe, restores the
/// stream, and returns the pipe's reader end, which holds what `f` wrote to
/// the stream. Where `f` unwinds instead of returning, the swap is not undone
/// here: the swap record cannot restore the slot from a destructor, since it
/// holds no access to the platform. A caller whose unit of work may panic
/// catches the panic inside `f` and raises it again once this returns.
pub fn capture<P: Stdio, F: FnOnce(&mut P)>(io: &mut P, f: F, target: LentFile) -> (r: Result<
    u64,
    CaptureError,
>)
    requires
        old(io).state().lease(target.stream()) == LeaseState::Held,
        forall|p: &mut P| f.requires((p,)),
    ensures
        match r {
            Ok(rd) => exists|p: &mut P, e: PipeEnds, h: u64|
                #![trigger f.ensures((p,), ()), fresh(old(io).state(), target.stream(), e, h)]
                f.ensures((p,), ()) && rd == e.reader && captured(
                    old(io).state(),
                    target.stream(),
                    e,
                    h,
                    mut_ref_current(p).state(),
                    mut_ref_future(p).state(),
                    final(io).state(),
                ),
            Err(err) => err == CaptureError::Io && (failed_early(
                old(io).state(),
                target.stream(),
                final(io).state(),
            ) || exists|p: &mut P, e: PipeEnds, h: u64, k: int|
                #![trigger f.ensures((p,), ()), captured_part(old(io).state(), target.stream(), e, h, mut_ref_current(p).state(), mut_ref_future(p).state(), k, final(io).state())]
                f.ensures((p,), ()) && captured_part(
                    old(io).state(),
                    target.stream(),
                    e,
                    h,
                    mut_ref_current(p).state(),
                    mut_ref_future(p).state(),
                    k,
                    final(io).state(),
                )),
        },
        final(io).state().slot(target.stream()) == old(io).state().slot(target.stream()),
        final(io).state().lease(target.stream()) != LeaseState::Held,
{
    let n = target.name;
    let ghost pre = io.state();
    let ends = match io.pipe() {
        Ok(e) => e,
        Err(e) => {
            io.release(n);
            return Err(e);
        },
    };
    let mut swap = match SwapFile::new(io, ends.writer, target) {
        Ok(s) => s,
        Err(e) => {
            assert(io.state() == pre.with_pipe(ends).with_lease(n, LeaseState::Free));
            return Err(e);
        },
    };
    let ghost start = io.state();
    assert(start == capturing(pre, n, ends, swap.installed()));
    f(io);
    let ghost mid = io.state();
    match swap.end(io) {
        Ok(()) => {
            assert(captured(pre, n, ends, swap.installed(), start, mid, io.state()));
            Ok(ends.reader)
        },
        Err(e) => {
            let ghost k = choose|k: int|
                0 <= k <= mid.restored(n, pre.slot(n)).objects[swap.installed()].buffer.len()
                    && io.state() == #[trigger] ended_part(mid, n, pre.slot(n), swap.installed(), k);
            assert(captured_part(pre, n, ends, swap.installed(), start, mid, k, io.state()));
            Err(e)
        },
    }
}

/// Reads the pipe of reader end `rd` to its end and decodes it as UTF-8 text.
pub fn drain<P: Stdio>(io: &mut P, rd: u64) -> (r: Result<String, CaptureError>)
    ensures
        match r {
            Ok(s) => old(io).state().pipes.contains_key(rd) && utf8_text(
                old(io).state().pipes[rd],
            ) == Some(s@) && final(io).state() == old(io).state().after_read(rd),
            Err(CaptureError::Decode) => old(io).state().pipes.contains_key(rd) && utf8_text(
                old(io).state().pipes[rd],
            ) is None && final(io).state() == old(io).state().after_read(rd),
            Err(e) => e == CaptureError::Io && final(io).state() == old(io).state(),
        },
{
    let bytes = match io.read_all(rd) {
        Ok(b) => b,
        Err(e) => return Err(e),
    };
    decode(bytes)
}

/// A text capture of `n` from state `pre`, over new pipe `e` and new
/// substitute `h`, that returned `r` and left `fin`: the unit of work was
/// handed the platform in state `start`, with the substitute installed, and
/// returned it in state `mid`; the swap then ended, and the text is what the
/// pipe held then, decoded as UTF-8. `Io` comes where closing the substitute
/// or reading the pipe failed.
pub open spec fn text_captured(
    pre: StdioState,
    n: StreamName,
    e: PipeEnds,
    h: u64,
    start: StdioState,
    mid: StdioState,
    r: Result<String, CaptureError>,
    fin: StdioState,
) -> bool {
    let post = ended(mid, n, pre.slot(n), h);
    &&& fresh(pre, n, e, h)
    &&& start == capturing(pre, n, e, h)
    &&& match r {
        Ok(s) => utf8_text(post.pipes[e.reader]) == Some(s@) && fin == post.after_read(e.reader),
        Err(CaptureError::Decode) => utf8_text(post.pipes[e.reader]) is None && fin
            == post.after_read(e.reader),
        Err(err) => err == CaptureError::Io && (fin == post || exists|k: int|
            0 <= k <= mid.restored(n, pre.slot(n)).objects[h].buffer.len() && fin
                == #[trigger] ended_part(mid, n, pre.slot(n), h, k)),
    }
}

/// Captures what `f` writes to the stream of `target`, as text.
pub fn cap_string<P: Stdio, F: FnOnce(&mut P)>(io: &mut P, f: F, target: LentFile) -> (r: Result<
    String,
    CaptureError,
>)
    requires
        old(io).state().lease(target.stream()) == LeaseState::Held,
        forall|p: &mut P| f.requires((p,)),
    ensures
        (r == Err::<String, CaptureError>(CaptureError::Io) && failed_early(
            old(io).state(),
            target.stream(),
            final(io).state(),
        )) || exists|p: &mut P, e: PipeEnds, h: u64|
            #![trigger f.ensures((p,), ()), fresh(old(io).state(), target.stream(), e, h)]
            f.ensures((p,), ()) && text_captured(
                old(io).state(),
                target.stream(),
                e,
                h,
                mut_ref_current(p).state(),
                mut_ref_future(p).state(),
                r,
                final(io).state(),
            ),
        final(io).state().slot(target.stream()) == old(io).state().slot(target.stream()),
        final(io).state().lease(target.stream()) != LeaseState::Held,
{
    let rd = match capture(io, f, target) {
        Ok(rd) => rd,
        Err(e) => return Err(e),
    };
    drain(io, rd)
}

/// Captures what `f` writes to stream `n`, as text; a poisoned lease gives
/// `Deadlock`.
fn cap_named<P: Stdio, F: FnOnce(&mut P)>(io: &mut P, f: F, n: StreamName) -> (r: Result<
    String,
    CaptureError,
>)
    requires
        old(io).state().lease(n) != LeaseState::Held,
        forall|p: &mut P| f.requires((p,)),
    ensures
        old(io).state().lease(n) == LeaseState::Poisoned ==> r == Err::<String, CaptureError>(
            CaptureError::Deadlock,
        ) && final(io).state() == old(io).state(),
        old(io).state().lease(n) == LeaseState::Free ==> final(io).state().slot(n) == old(
            io,
        ).state().slot(n) && final(io).state().lease(n) != LeaseState::Held && (
            (r == Err::<String, CaptureError>(CaptureError::Io) && failed_early(
                old(io).state().with_lease(n, LeaseState::Held),
                n,
                final(io).state(),
            )) || exists|p: &mut P, e: PipeEnds, h: u64|
                #![trigger f.ensures((p,), ()), fresh(old(io).state().with_lease(n, LeaseState::Held), n, e, h)]
                f.ensures((p,), ()) && text_captured(
                    old(io).state().with_lease(n, LeaseState::Held),
                    n,
                    e,
                    h,
                    mut_ref_current(p).state(),
                    mut_ref_future(p).state(),
                    r,
                    final(io).state(),
                )
        ),
{
    match lend(io, n) {
        Ok(l) => cap_string(io, f, l),
        Err(_) => Err(CaptureError::Deadlock),
    }
}

/// Captures what `f` writes to the output stream, as text; a poisoned lease
/// gives `Deadlock`.
pub fn cap_stdout<P: Stdio, F: FnOnce(&mut P)>(io: &mut P, f: F) -> (r: Result<
    String,
    CaptureError,
>)
    requires
        old(io).state().lease(StreamName::Output) != LeaseState::Held,
        forall|p: &mut P| f.requires((p,)),
    ensures
        old(io).state().lease(StreamName::Output) == LeaseState::Poisoned ==> r == Err::<
            String,
            CaptureError,
        >(CaptureError::Deadlock) && final(io).state() == old(io).state(),
        old(io).state().lease(StreamName::Output) == LeaseState::Free ==> final(io).state().slot(
            StreamName::Output,
        ) == old(io).state().slot(StreamName::Output) && final(io).state().lease(StreamName::Output)
            != LeaseState::Held && (
            (r == Err::<String, CaptureError>(CaptureError::Io) && failed_early(
                old(io).state().with_lease(StreamName::Output, LeaseState::Held),
                StreamName::Output,
                final(io).state(),
            )) || exists|p: &mut P, e: PipeEnds, h: u64|
                #![trigger f.ensures((p,), ()), fresh(old(io).state().with_lease(StreamName::Output, LeaseState::Held), StreamName::Output, e, h)]
                f.ensures((p,), ()) && text_captured(
                    old(io).state().with_lease(StreamName::Output, LeaseState::Held),
                    StreamName::Output,
                    e,
                    h,
                    mut_ref_current(p).state(),
                    mut_ref_future(p).state(),
                    r,
                    final(io).state(),
                )
        ),
{
    cap_named(io, f, StreamName::Output)
}

/// Captures what `f` writes to the error stream, as text; a poisoned lease
/// gives `Deadlock`.
pub fn cap_stderr<P: Stdio, F: FnOnce(&mut P)>(io: &mut P, f: F) -> (r: Result<
    String,
    CaptureError,
>)
    requires
        old(io).state().lease(StreamName::Error) != LeaseState::Held,
        forall|p: &mut P| f.requires((p,)),
    ensures
        old(io).state().lease(StreamName::Error) == LeaseState::Poisoned ==> r == Err::<
            String,
            CaptureError,
        >(CaptureError::Deadlock) && final(io).state() == old(io).state(),
        old(io).state().lease(StreamName::Error) == LeaseState::Free ==> final(io).state().slot(
            StreamName::Error,
        ) == old(io).state().slot(StreamName::Error) && final(io).state().lease(StreamName::Error)
            != LeaseState::Held && (
            (r == Err::<String, CaptureError>(CaptureError::Io) && failed_early(
                old(io).state().with_lease(StreamName::Error, LeaseState::Held),
                StreamName::Error,
                final(io).state(),
            )) || exists|p: &mut P, e: PipeEnds, h: u64|
                #![trigger f.ensures((p,), ()), fresh(old(io).state().with_lease(StreamName::Error, LeaseState::Held), StreamName::Error, e, h)]
                f.ensures((p,), ()) && text_captured(
                    old(io).state().with_lease(StreamName::Error, LeaseState::Held),
                    StreamName::Error,
                    e,
                    h,
                    mut_ref_current(p).state(),
                    mut_ref_future(p).state(),
                    r,
                    final(io).state(),
                )
        ),
{
    cap_named(io, f, StreamName::Error)
}

} // verus!
