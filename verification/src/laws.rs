//! What holds of the engine however the server's bytes are cut into chunks and
//! whenever the host empties the queue.

use vstd::prelude::*;
use crate::model::{Phase, VncView, lemma_step_progress};
use crate::types::OutputView;

verus! {

/// A step looks at the bytes of its phase only: bytes behind them stay where
/// they are and change nothing.
pub proof fn lemma_step_local(v: VncView, extra: Seq<u8>)
    requires
        v.ready(),
    ensures
        v.feed(extra).ready(),
        v.feed(extra).step() == v.step().feed(extra),
{
    let n = v.core.phase.spec_require();
    assert((v.buffer + extra).take(n) =~= v.buffer.take(n));
    assert((v.buffer + extra).skip(n) =~= v.buffer.skip(n) + extra);
    assert(v.feed(extra).step().buffer =~= v.step().feed(extra).buffer);
}

/// Bytes that come once the engine has taken every step it could give what
/// they give when they are there from the start.
pub proof fn lemma_run_absorbs(v: VncView, extra: Seq<u8>)
    ensures
        v.run().feed(extra).run() == v.feed(extra).run(),
    decreases v.buffer.len(), v.rank(),
{
    reveal(VncView::run);
    if v.ready() {
        lemma_step_progress(v);
        lemma_step_local(v, extra);
        lemma_run_absorbs(v.step(), extra);
    }
}

/// Chunk-boundary independence for two chunks: to deliver `a` and then `b` is
/// to deliver both at once.
pub proof fn law_two_chunks(v: VncView, a: Seq<u8>, b: Seq<u8>)
    ensures
        v.feed(a).run().feed(b).run() == v.feed(a + b).run(),
{
    lemma_run_absorbs(v.feed(a), b);
    assert(v.buffer + a + b =~= v.buffer + (a + b));
    assert(v.feed(a).feed(b) == v.feed(a + b));
}

/// The engine after `chunks` have been delivered one after the other.
pub open spec fn deliver(v: VncView, chunks: Seq<Seq<u8>>) -> VncView
    decreases chunks.len(),
{
    if chunks.len() == 0 {
        v
    } else {
        deliver(v, chunks.drop_last()).feed(chunks.last()).run()
    }
}

/// Chunk-boundary independence: to deliver the chunks one after the other is
/// to deliver their bytes at once. This holds of every state and of every way
/// of cutting, chunks without bytes included; with no chunk at all the engine
/// must have taken every step that it can.
pub proof fn law_chunk_independence(v: VncView, chunks: Seq<Seq<u8>>)
    requires
        chunks.len() >= 1 || !v.ready(),
    ensures
        deliver(v, chunks) == v.feed(chunks.flatten()).run(),
    decreases chunks.len(),
{
    if chunks.len() == 0 {
        reveal(VncView::run);
        assert(chunks.flatten() =~= Seq::<u8>::empty());
        assert(v.buffer + Seq::<u8>::empty() =~= v.buffer);
        assert(v.feed(chunks.flatten()) == v);
    } else {
        let init = chunks.drop_last();
        let last = chunks.last();
        assert(chunks =~= init.push(last));
        init.lemma_flatten_push(last);
        assert(chunks.flatten() == init.flatten() + last);
        assert(deliver(v, chunks) == deliver(v, init).feed(last).run());
        if init.len() == 0 {
            assert(init.flatten() =~= Seq::<u8>::empty());
            assert(Seq::<u8>::empty() + last =~= last);
            assert(deliver(v, init) == v);
        } else {
            law_chunk_independence(v, init);
            law_two_chunks(v, init.flatten(), last);
        }
    }
}

/// The engine with `prefix` in front of its queue.
pub open spec fn queued_behind(prefix: Seq<OutputView>, v: VncView) -> VncView {
    VncView { outs: prefix + v.outs, ..v }
}

/// What waits in the queue has no part in what the engine does: it stays in
/// front of what is added.
pub proof fn lemma_queue_is_framed(prefix: Seq<OutputView>, v: VncView)
    ensures
        queued_behind(prefix, v).run() == queued_behind(prefix, v.run()),
    decreases v.buffer.len(), v.rank(),
{
    reveal(VncView::run);
    let w = queued_behind(prefix, v);
    if v.ready() {
        lemma_step_progress(v);
        let n = v.core.phase.spec_require();
        let a = crate::model::advance(v.core, v.buffer.take(n));
        assert(prefix + v.outs + a.emitted =~= prefix + (v.outs + a.emitted));
        assert(w.step() == queued_behind(prefix, v.step()));
        lemma_queue_is_framed(prefix, v.step());
    }
}

/// The engine with an empty queue.
pub open spec fn drained(v: VncView) -> VncView {
    VncView { outs: Seq::empty(), ..v }
}

/// The engine after `chunks` have been delivered one after the other and the
/// queue has been emptied after each, and all that the queue held, in the order
/// in which it was handed over.
pub open spec fn session(v: VncView, chunks: Seq<Seq<u8>>) -> (VncView, Seq<OutputView>)
    decreases chunks.len(),
{
    if chunks.len() == 0 {
        (drained(v), v.outs)
    } else {
        let before = session(v, chunks.drop_last());
        let after = before.0.feed(chunks.last()).run();
        (drained(after), before.1 + after.outs)
    }
}

/// When the host empties the queue makes no difference: what it is handed
/// over chunk by chunk is, in order, what the queue holds when it is never
/// emptied.
pub proof fn law_draining_keeps_order(v: VncView, chunks: Seq<Seq<u8>>)
    ensures
        session(v, chunks).0 == drained(deliver(v, chunks)),
        session(v, chunks).1 == deliver(v, chunks).outs,
    decreases chunks.len(),
{
    if chunks.len() > 0 {
        let init = chunks.drop_last();
        law_draining_keeps_order(v, init);
        let kept = deliver(v, init);
        let fed = drained(kept).feed(chunks.last());
        lemma_queue_is_framed(kept.outs, fed);
        assert(kept.outs + Seq::<OutputView>::empty() =~= kept.outs);
        assert(queued_behind(kept.outs, fed) == kept.feed(chunks.last()));
        assert(drained(queued_behind(kept.outs, fed.run())) == drained(fed.run()));
    }
}

/// The order of the server's bytes is the order of the effects: what a chunk
/// adds to the queue comes behind what earlier chunks added.
pub proof fn law_queue_grows(v: VncView, chunk: Seq<u8>)
    ensures
        v.outs.is_prefix_of(v.feed(chunk).run().outs),
{
    let empty = drained(v).feed(chunk);
    lemma_queue_is_framed(v.outs, empty);
    assert(v.outs + Seq::<OutputView>::empty() =~= v.outs);
    assert(queued_behind(v.outs, empty) == v.feed(chunk));
    assert(v.feed(chunk).run().outs == v.outs + empty.run().outs);
}

/// A connection that has failed stays failed: bytes that come later change
/// nothing; in particular no effect is queued.
pub proof fn law_closed_is_final(v: VncView, chunk: Seq<u8>)
    requires
        v.core.phase == Phase::Closed,
    ensures
        v.feed(chunk).run() == v,
{
    reveal(VncView::run);
}

/// The engine takes no step while it waits for the password: the server's
/// bytes wait with it.
pub proof fn law_waits_for_password(v: VncView, chunk: Seq<u8>)
    requires
        v.core.phase == Phase::Credential,
    ensures
        v.feed(chunk).run() == v.feed(chunk),
{
    reveal(VncView::run);
}

/// Once the engine has taken every step that it can, it has too few bytes for
/// the next, or waits for something else than bytes.
pub proof fn law_run_settles(v: VncView)
    ensures
        !v.run().ready(),
    decreases v.buffer.len(), v.rank(),
{
    reveal(VncView::run);
    if v.ready() {
        lemma_step_progress(v);
        law_run_settles(v.step());
    }
}

/// A step that ends the connection queues exactly one effect, which is an
/// error, and no other step queues an error.
pub proof fn law_one_error(v: VncView)
    requires
        v.ready(),
    ensures
        v.step().core.phase == Phase::Closed ==> v.step().outs.len() == v.outs.len() + 1
            && v.step().outs.drop_last() == v.outs && v.step().outs.last() is Error,
        v.step().core.phase != Phase::Closed ==> forall|i: int|
            v.outs.len() <= i < v.step().outs.len() ==> !(#[trigger] v.step().outs[i] is Error),
{
    reveal(crate::model::advance);
    let n = v.core.phase.spec_require();
    let bytes = v.buffer.take(n);
    let a = crate::model::advance(v.core, bytes);
    assert(v.step().outs == v.outs + a.emitted);
    if a.core.phase == Phase::Closed {
        assert(a.emitted.len() == 1 && a.emitted[0] is Error);
        assert((v.outs + a.emitted).drop_last() =~= v.outs);
    } else {
        assert(forall|i: int| 0 <= i < a.emitted.len() ==> !(#[trigger] a.emitted[i] is Error));
    }
}

} // verus!
