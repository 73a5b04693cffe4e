//! Facts about captures, proved over the stdio state.
use vstd::prelude::*;
use crate::capture::{ended, ended_part, text_captured, utf8_text};
use crate::stdio::CaptureError;
use crate::stdio::{LeaseState, PipeEnds, StdioState, StreamName, StreamObj};

verus! {

/// The concatenation of a sequence of writes.
pub open spec fn joined(ws: Seq<Seq<u8>>) -> Seq<u8>
    decreases ws.len(),
{
    if ws.len() == 0 {
        Seq::empty()
    } else {
        joined(ws.drop_last()) + ws.last()
    }
}

/// The state after the writes `ws`, in order, through the write primitive of `n`.
pub open spec fn after_writes(s: StdioState, n: StreamName, ws: Seq<Seq<u8>>) -> StdioState
    decreases ws.len(),
{
    if ws.len() == 0 {
        s
    } else {
        after_writes(s, n, ws.drop_last()).after_write(n, ws.last())
    }
}

/// The state in which a capture of `n` is under way: a new pipe `e` and the
/// slot of `n` swapped to a new stream object `h` over its writer end.
pub open spec fn capturing(s: StdioState, n: StreamName, e: PipeEnds, h: u64) -> StdioState {
    s.with_pipe(e).swapped(n, h, e.writer)
}

/// What a capture may start from: the lease of `n` held, the slot of `n`
/// designating an existing stream object, `e` a pipe not yet made and `h` a
/// stream object not yet made.
pub open spec fn can_capture(s: StdioState, n: StreamName, e: PipeEnds, h: u64) -> bool {
    &&& s.lease(n) == LeaseState::Held
    &&& s.objects.contains_key(s.slot(n))
    &&& !s.pipes.contains_key(e.reader)
    &&& !s.writers.contains_key(e.writer)
    &&& !s.objects.contains_key(h)
}

proof fn lemma_writes_buffered(s: StdioState, n: StreamName, e: PipeEnds, h: u64, ws: Seq<Seq<u8>>)
    requires
        can_capture(s, n, e, h),
    ensures
        after_writes(capturing(s, n, e, h), n, ws) == (StdioState {
            objects: capturing(s, n, e, h).objects.insert(
                h,
                StreamObj { buffer: joined(ws), ..capturing(s, n, e, h).objects[h] },
            ),
            ..capturing(s, n, e, h)
        }),
    decreases ws.len(),
{
    let c = capturing(s, n, e, h);
    assert(c.slot(n) == h);
    assert(c.objects.contains_key(h) && c.objects[h].open);
    if ws.len() == 0 {
        assert(c.objects.insert(h, StreamObj { buffer: joined(ws), ..c.objects[h] }) =~= c.objects);
    } else {
        lemma_writes_buffered(s, n, e, h, ws.drop_last());
        let prev = after_writes(c, n, ws.drop_last());
        assert(prev.slot(n) == h);
        assert(prev.after_write(n, ws.last()).objects =~= c.objects.insert(
            h,
            StreamObj { buffer: joined(ws), ..c.objects[h] },
        ));
    }
}

/// Whatever writes the unit of work makes, in order, through the write
/// primitive of the captured stream, the pipe holds exactly their
/// concatenation once the swap has ended, and the stream's slot holds what it
/// held before. None of them reaches the original stream object, which holds
/// the stream-level lock while they are made and is unlocked afterwards.
pub proof fn lemma_capture_is_concatenation(
    s: StdioState,
    n: StreamName,
    e: PipeEnds,
    h: u64,
    ws: Seq<Seq<u8>>,
)
    requires
        can_capture(s, n, e, h),
    ensures
        ended(after_writes(capturing(s, n, e, h), n, ws), n, s.slot(n), h).pipes[e.reader]
            == joined(ws),
        ended(after_writes(capturing(s, n, e, h), n, ws), n, s.slot(n), h).slot(n)
            == s.slot(n),
        ended(after_writes(capturing(s, n, e, h), n, ws), n, s.slot(n), h).lease(n)
            == LeaseState::Free,
        ended(after_writes(capturing(s, n, e, h), n, ws), n, s.slot(n), h).objects[s.slot(
            n,
        )].buffer == s.objects[s.slot(n)].buffer,
        after_writes(capturing(s, n, e, h), n, ws).objects[s.slot(n)].locked,
        !ended(after_writes(capturing(s, n, e, h), n, ws), n, s.slot(n), h).objects[s.slot(
            n,
        )].locked,
{
    lemma_writes_buffered(s, n, e, h, ws);
    let w = after_writes(capturing(s, n, e, h), n, ws);
    let orig = s.slot(n);
    assert(orig != h);
    let t = w.restored(n, orig);
    assert(t.objects[h] == w.objects[h]);
    assert(t.objects[h].pipe == Some(e.reader));
    assert(t.pipes[e.reader] == Seq::<u8>::empty());
    assert(t.after_close(h).pipes[e.reader] =~= joined(ws));
}

/// A capture of one stream leaves the other stream alone: swapping `n` keeps
/// the other stream's slot and lease, and writes through the other stream's
/// primitive during the capture reach neither the substitute nor the pipe.
pub proof fn lemma_streams_independent(
    s: StdioState,
    n: StreamName,
    m: StreamName,
    e: PipeEnds,
    h: u64,
    bytes: Seq<u8>,
)
    requires
        can_capture(s, n, e, h),
        m != n,
        s.objects.contains_key(s.slot(m)),
    ensures
        capturing(s, n, e, h).slot(m) == s.slot(m),
        capturing(s, n, e, h).lease(m) == s.lease(m),
        capturing(s, n, e, h).after_write(m, bytes).objects[h] == capturing(s, n, e, h).objects[h],
        capturing(s, n, e, h).after_write(m, bytes).pipes == capturing(s, n, e, h).pipes,
{
    let c = capturing(s, n, e, h);
    assert(c.slot(m) == s.slot(m));
    if c.objects.contains_key(c.slot(m)) && c.objects[c.slot(m)].open {
        assert(c.slot(m) != h);
    }
}

/// Where the unit of work of a text capture makes the writes `ws`, in order,
/// through the write primitive of the captured stream, the text is their
/// concatenation decoded as UTF-8, and `Decode` comes exactly where that
/// concatenation is not UTF-8. The other stream's slot is left as the unit of
/// work left it.
pub proof fn lemma_text_is_joined_writes(
    pre: StdioState,
    n: StreamName,
    e: PipeEnds,
    h: u64,
    start: StdioState,
    r: Result<String, CaptureError>,
    fin: StdioState,
    ws: Seq<Seq<u8>>,
)
    requires
        pre.lease(n) == LeaseState::Held,
        pre.objects.contains_key(pre.slot(n)),
        text_captured(pre, n, e, h, start, after_writes(start, n, ws), r, fin),
    ensures
        r matches Ok(s) ==> utf8_text(joined(ws)) == Some(s@),
        r == Err::<String, CaptureError>(CaptureError::Decode) ==> utf8_text(joined(ws)) is None,
        r is Ok || r == Err::<String, CaptureError>(CaptureError::Decode) ==> fin.objects[pre.slot(
            n,
        )].buffer == pre.objects[pre.slot(n)].buffer,
        forall|m: StreamName| m != n ==> fin.slot(m) == after_writes(start, n, ws).slot(m),
{
    lemma_capture_is_concatenation(pre, n, e, h, ws);
    let post = ended(after_writes(start, n, ws), n, pre.slot(n), h);
    assert(post.pipes[e.reader] == joined(ws));
    assert forall|m: StreamName| m != n implies fin.slot(m) == after_writes(start, n, ws).slot(m) by {
        if !(r is Ok || r == Err::<String, CaptureError>(CaptureError::Decode) || fin == post) {
            let k = choose|k: int|
                0 <= k <= after_writes(start, n, ws).restored(n, pre.slot(n)).objects[h].buffer.len()
                    && fin == #[trigger] ended_part(after_writes(start, n, ws), n, pre.slot(n), h, k);
        }
    }
}

/// Once a swap has ended, its substitute is closed: closing it again, to any
/// extent, changes nothing, so it is never closed twice.
pub proof fn lemma_end_closes_once(s: StdioState, n: StreamName, orig: u64, sub: u64, k: int, j: int)
    requires
        s.objects.contains_key(sub),
    ensures
        !ended_part(s, n, orig, sub, k).objects[sub].open,
        ended_part(s, n, orig, sub, k).after_close_part(sub, j) == ended_part(s, n, orig, sub, k),
{
}

} // verus!
