//! The output path of a terminal session: a reader appends what the
//! pseudo-terminal produced to a pending buffer, a flusher periodically hands
//! the whole buffer to the frontend, and a waiter reports the exit code and
//! the tail once the shell has exited.
//!
//! The pending buffer is bounded: when a read would push it past
//! `MAX_PENDING` bytes, what is pending is dropped and replaced by a short
//! notice, so a flood of output cannot exhaust memory.
use vstd::prelude::*;

verus! {

/// Size of one read from the pseudo-terminal.
pub const READ_BUF: usize = 16 * 1024;

/// Largest number of bytes kept pending for the frontend.
pub const MAX_PENDING: usize = 4 * 1024 * 1024;

/// The notice that replaces dropped output: a terminal reset, then a dimmed
/// line of text.
pub open spec fn overflow_notice_bytes() -> Seq<u8> {
    seq![
        27u8, 99u8, 27u8, 91u8, 50u8, 109u8, 91u8, 116u8, 101u8, 114u8, 97u8, 120u8, 58u8,
        32u8, 100u8, 114u8, 111u8, 112u8, 112u8, 101u8, 100u8, 32u8, 111u8, 117u8, 116u8,
        112u8, 117u8, 116u8, 32u8, 100u8, 117u8, 101u8, 32u8, 116u8, 111u8, 32u8, 98u8, 97u8,
        99u8, 107u8, 112u8, 114u8, 101u8, 115u8, 115u8, 117u8, 114u8, 101u8, 93u8, 27u8, 91u8,
        48u8, 109u8, 13u8, 10u8,
    ]
}

/// The bytes of the overflow notice.
pub fn overflow_notice() -> (r: Vec<u8>)
    ensures
        r@ == overflow_notice_bytes(),
{
    let r: Vec<u8> = vec![
        27u8, 99u8, 27u8, 91u8, 50u8, 109u8, 91u8, 116u8, 101u8, 114u8, 97u8, 120u8, 58u8,
        32u8, 100u8, 114u8, 111u8, 112u8, 112u8, 101u8, 100u8, 32u8, 111u8, 117u8, 116u8,
        112u8, 117u8, 116u8, 32u8, 100u8, 117u8, 101u8, 32u8, 116u8, 111u8, 32u8, 98u8, 97u8,
        99u8, 107u8, 112u8, 114u8, 101u8, 115u8, 115u8, 117u8, 114u8, 101u8, 93u8, 27u8, 91u8,
        48u8, 109u8, 13u8, 10u8,
    ];
    assert(r@ =~= overflow_notice_bytes());
    r
}

/// What the pending buffer holds after `chunk` was read.
pub open spec fn pending_after(pending: Seq<u8>, chunk: Seq<u8>) -> Seq<u8> {
    if pending.len() + chunk.len() > MAX_PENDING {
        overflow_notice_bytes() + chunk
    } else {
        pending + chunk
    }
}

/// Appends `src` to `dst`.
fn extend_bytes(dst: &mut Vec<u8>, src: &[u8])
    ensures
        final(dst)@ == old(dst)@ + src@,
{
    let mut i: usize = 0;
    while i < src.len()
        invariant
            i <= src@.len(),
            dst@ == old(dst)@ + src@.subrange(0, i as int),
        decreases src@.len() - i,
    {
        dst.push(src[i]);
        i = i + 1;
        assert(dst@ =~= old(dst)@ + src@.subrange(0, i as int));
    }
    assert(src@.subrange(0, src@.len() as int) =~= src@);
}

/// Adds what one read produced to the pending buffer; when the buffer would
/// grow past `MAX_PENDING`, its contents are replaced by the overflow notice
/// first.
pub fn append_output(pending: &mut Vec<u8>, chunk: &[u8])
    ensures
        final(pending)@ == pending_after(old(pending)@, chunk@),
{
    if pending.len() > MAX_PENDING || chunk.len() > MAX_PENDING - pending.len() {
        *pending = overflow_notice();
    }
    extend_bytes(pending, chunk);
}

/// The pending buffer never holds more than `MAX_PENDING` bytes after a
/// read of at most `READ_BUF` bytes, whatever it held before.
pub proof fn lemma_pending_stays_bounded(pending: Seq<u8>, chunk: Seq<u8>)
    requires
        chunk.len() <= READ_BUF,
    ensures
        pending_after(pending, chunk).len() <= MAX_PENDING,
{
}

/// The most recent read is never dropped: the pending buffer always ends
/// with it.
pub proof fn lemma_latest_chunk_kept(pending: Seq<u8>, chunk: Seq<u8>)
    ensures
        pending_after(pending, chunk).len() >= chunk.len(),
        pending_after(pending, chunk).subrange(
            pending_after(pending, chunk).len() - chunk.len(),
            pending_after(pending, chunk).len() as int,
        ) =~= chunk,
{
}

/// While the limit is not reached, nothing pending is lost: the buffer
/// still starts with what it held.
pub proof fn lemma_pending_kept_below_limit(pending: Seq<u8>, chunk: Seq<u8>)
    requires
        pending.len() + chunk.len() <= MAX_PENDING,
    ensures
        pending_after(pending, chunk).subrange(0, pending.len() as int) =~= pending,
{
}

/// What the flusher does on one tick.
pub enum FlushAction {
    /// Nothing pending yet: sleep and look again.
    Wait,
    /// Nothing pending and the session is over: the flusher ends.
    Stop,
    /// Hand these bytes to the frontend.
    Send(Vec<u8>),
}

/// One tick of the flusher: takes the whole pending buffer when it holds
/// anything; otherwise waits, or stops once the session is over.
pub fn flush_step(pending: &mut Vec<u8>, done: bool) -> (r: FlushAction)
    ensures
        old(pending)@.len() == 0 ==> final(pending)@ == old(pending)@ && (if done {
            r is Stop
        } else {
            r is Wait
        }),
        old(pending)@.len() > 0 ==> final(pending)@.len() == 0 && (r matches FlushAction::Send(
            out,
        ) && out@ == old(pending)@),
{
    if pending.is_empty() {
        if done {
            FlushAction::Stop
        } else {
            FlushAction::Wait
        }
    } else {
        let mut out: Vec<u8> = Vec::new();
        std::mem::swap(&mut out, pending);
        FlushAction::Send(out)
    }
}

/// Takes what is still pending once the shell has exited; `None` when
/// nothing is left.
pub fn take_tail(pending: &mut Vec<u8>) -> (r: Option<Vec<u8>>)
    ensures
        final(pending)@.len() == 0,
        old(pending)@.len() == 0 ==> r is None,
        old(pending)@.len() > 0 ==> (r matches Some(tail) && tail@ == old(pending)@),
{
    let mut tail: Vec<u8> = Vec::new();
    std::mem::swap(&mut tail, pending);
    if tail.is_empty() {
        None
    } else {
        Some(tail)
    }
}

/// The exit code reported for the shell: its status code when waiting for
/// it succeeded and it exited with one (`waited` is `Some(code)` then), and
/// -1 when it was killed by a signal or waiting failed.
pub fn exit_code(waited: Option<Option<i32>>) -> (r: i32)
    ensures
        r == match waited {
            Some(Some(c)) => c,
            _ => -1i32,
        },
{
    match waited {
        Some(Some(c)) => c,
        _ => -1,
    }
}

// ── The stream as a whole ──────────────────────────────────────────────────
/// What happens to a session's output: a read from the pseudo-terminal, or
/// a hand-over of everything pending to the frontend (a flush, or the tail
/// taken after the shell exited).
pub enum OutputOp {
    Read(Seq<u8>),
    HandOver,
}

/// The output of a session so far: the bytes handed to the frontend, in
/// order, and the bytes still pending.
pub struct OutputModel {
    pub sent: Seq<u8>,
    pub pending: Seq<u8>,
}

/// The effect of one operation: a read goes through `append_output`, a
/// hand-over through `flush_step` or `take_tail`, which send all that is
/// pending and leave nothing.
pub open spec fn output_step(m: OutputModel, op: OutputOp) -> OutputModel {
    match op {
        OutputOp::Read(chunk) => OutputModel { sent: m.sent, pending: pending_after(m.pending, chunk) },
        OutputOp::HandOver => OutputModel { sent: m.sent + m.pending, pending: Seq::empty() },
    }
}

/// The effect of a sequence of operations.
pub open spec fn output_run(m: OutputModel, ops: Seq<OutputOp>) -> OutputModel
    decreases ops.len(),
{
    if ops.len() == 0 {
        m
    } else {
        output_run(output_step(m, ops[0]), ops.drop_first())
    }
}

/// All bytes read, in order.
pub open spec fn bytes_read(ops: Seq<OutputOp>) -> Seq<u8>
    decreases ops.len(),
{
    if ops.len() == 0 {
        Seq::empty()
    } else {
        match ops[0] {
            OutputOp::Read(chunk) => chunk + bytes_read(ops.drop_first()),
            OutputOp::HandOver => bytes_read(ops.drop_first()),
        }
    }
}

/// Whether no read of the sequence pushes the pending buffer past the limit.
pub open spec fn within_limit(m: OutputModel, ops: Seq<OutputOp>) -> bool
    decreases ops.len(),
{
    if ops.len() == 0 {
        true
    } else {
        (match ops[0] {
            OutputOp::Read(chunk) => m.pending.len() + chunk.len() <= MAX_PENDING,
            OutputOp::HandOver => true,
        }) && within_limit(output_step(m, ops[0]), ops.drop_first())
    }
}

/// While the limit is not reached, the frontend gets exactly what was read:
/// what was handed over, followed by what is still pending, is the bytes
/// read, with nothing lost, duplicated or reordered.
pub proof fn lemma_stream_is_lossless(m: OutputModel, ops: Seq<OutputOp>)
    requires
        within_limit(m, ops),
    ensures
        output_run(m, ops).sent + output_run(m, ops).pending =~= m.sent + m.pending + bytes_read(
            ops,
        ),
    decreases ops.len(),
{
    if ops.len() > 0 {
        let next = output_step(m, ops[0]);
        lemma_stream_is_lossless(next, ops.drop_first());
        match ops[0] {
            OutputOp::Read(chunk) => {
                assert(next.sent + next.pending =~= m.sent + m.pending + chunk);
            },
            OutputOp::HandOver => {
                assert(next.sent + next.pending =~= m.sent + m.pending);
            },
        }
    }
}

/// What was handed to the frontend is never taken back: later operations
/// only add to it.
pub proof fn lemma_sent_only_grows(m: OutputModel, ops: Seq<OutputOp>)
    ensures
        output_run(m, ops).sent.len() >= m.sent.len(),
        output_run(m, ops).sent.subrange(0, m.sent.len() as int) =~= m.sent,
    decreases ops.len(),
{
    if ops.len() > 0 {
        let next = output_step(m, ops[0]);
        lemma_sent_only_grows(next, ops.drop_first());
        assert(next.sent.subrange(0, m.sent.len() as int) =~= m.sent);
        assert(output_run(m, ops).sent.subrange(0, m.sent.len() as int) =~= next.sent.subrange(
            0,
            m.sent.len() as int,
        ));
    }
}

/// At a read that would pass the limit, exactly the bytes not yet handed
/// over are replaced by the overflow notice; what was handed over stays.
pub proof fn lemma_overflow_replaces_unsent(m: OutputModel, chunk: Seq<u8>)
    requires
        m.pending.len() + chunk.len() > MAX_PENDING,
    ensures
        output_step(m, OutputOp::Read(chunk)).sent == m.sent,
        output_step(m, OutputOp::Read(chunk)).pending == overflow_notice_bytes() + chunk,
{
}

/// A hand-over after the reads delivers all that is pending and leaves
/// nothing behind.
pub proof fn lemma_hand_over_delivers_all(m: OutputModel)
    ensures
        output_step(m, OutputOp::HandOver).sent == m.sent + m.pending,
        output_step(m, OutputOp::HandOver).pending.len() == 0,
{
}

} // verus!
