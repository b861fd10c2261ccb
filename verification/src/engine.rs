//! The execution engine: one transaction at a time is pulled from the
//! source, folded through the processor chain, written to the sink, and only
//! then acknowledged. The acknowledgment handle is single-use by
//! construction: a resolved transaction can be neither acknowledged nor
//! failed a second time.

use vstd::prelude::*;

use crate::errors::PipelineError;
use crate::processors::{proc_batch, process_chain, spec_chain, CompiledProcessor, Pipeline,
    ProcView};
use crate::{BatchView, MessageBatch, Transaction};

verus! {

/// What a source hands the engine when asked for the next unit of work.
pub enum SourcePoll {
    /// The next batch; the source now blocks (holds its upstream position)
    /// until the engine reports the delivery result.
    Batch(MessageBatch),
    /// The feed is exhausted; the run ends normally.
    End,
    /// The feed failed unrecoverably; the run ends with an error.
    Fail(String),
}

/// A pluggable feed of batches. The engine calls `next_batch`, drives the
/// returned batch through the pipeline, and then reports the outcome through
/// `deliver_result` — exactly once per batch — before asking for the next
/// one. A source performs its own advance action (commit an offset, answer a
/// caller) only on a successful report.
pub trait Source {
    /// The next unit of upstream data, if any.
    fn next_batch(&mut self) -> SourcePoll;

    /// The delivery result for the batch most recently handed out. Returns
    /// true when the source wants the run to stop here.
    fn deliver_result(&mut self, delivered: bool) -> bool;
}

/// A pluggable transform stage: one batch in, zero or more batches out, in
/// order. An error fails the whole transaction; nothing of it reaches the
/// sink's downstream position.
pub trait Processor {
    /// Transforms one batch.
    fn process(&self, batch: &MessageBatch) -> Result<Vec<MessageBatch>, PipelineError>;
}

impl Processor for CompiledProcessor {
    /// An in-library processor never fails, and its one output batch is
    /// exactly what the processor's meaning says.
    fn process(&self, batch: &MessageBatch) -> (r: Result<Vec<MessageBatch>, PipelineError>)
        ensures
            r is Ok,
            r matches Ok(out) ==> out.deep_view() == seq![proc_batch(self@, batch@)],
    {
        Ok(CompiledProcessor::apply(self, batch))
    }
}

/// A pluggable delivery target. `write` returns only once the batch is fully
/// delivered downstream (including any confirmation the target requires);
/// that is what makes acknowledging the transaction safe.
pub trait Sink {
    /// Delivers every message of one batch downstream.
    fn write(&mut self, batch: &MessageBatch) -> Result<(), PipelineError>;
}

/// A sink that keeps every batch it is given, in arrival order. It stands in
/// for a downstream system in harnesses and never fails.
pub struct MemorySink {
    /// The batches written so far, oldest first.
    pub received: Vec<MessageBatch>,
}

impl MemorySink {
    /// An empty sink.
    pub fn new() -> (s: MemorySink)
        ensures
            s.received@.len() == 0,
    {
        MemorySink { received: Vec::new() }
    }
}

impl Sink for MemorySink {
    /// Keeps the batch: never fails, and appends exactly the batch given.
    fn write(&mut self, batch: &MessageBatch) -> (r: Result<(), PipelineError>)
        ensures
            r is Ok,
            final(self).received.deep_view() == old(self).received.deep_view().push(batch@),
    {
        let ghost pre = self.received.deep_view();
        self.received.push(batch.clone());
        proof {
            assert(self.received.deep_view() =~~= pre.push(batch@));
        }
        Ok(())
    }
}

/// A source feeding from a list of batches, for harnesses. It counts how its
/// delivery reports came back: `advanced` is its advance action, performed
/// exactly once per successfully delivered batch and never for a failed one.
pub struct VecSource {
    /// The feed, oldest first.
    pub batches: Vec<MessageBatch>,
    /// The index of the next batch to hand out.
    pub next: usize,
    /// How many batches were confirmed delivered.
    pub advanced: u64,
    /// How many batches came back failed.
    pub rejected: u64,
}

impl VecSource {
    /// A source that will feed the given batches in order.
    pub fn new(batches: Vec<MessageBatch>) -> (s: VecSource)
        ensures
            s.batches == batches,
            s.next == 0,
            s.advanced == 0,
            s.rejected == 0,
    {
        VecSource { batches, next: 0, advanced: 0, rejected: 0 }
    }
}

impl Source for VecSource {
    /// Hands out the next batch of the feed, in order, and never fails.
    fn next_batch(&mut self) -> (r: SourcePoll)
        ensures
            final(self).batches == old(self).batches,
            final(self).advanced == old(self).advanced,
            final(self).rejected == old(self).rejected,
            old(self).next < old(self).batches@.len() ==> {
                &&& final(self).next == old(self).next + 1
                &&& r matches SourcePoll::Batch(b) && b@ == old(self).batches.deep_view()[
                    old(self).next as int]
            },
            old(self).next >= old(self).batches@.len() ==> final(self).next == old(self).next
                && r is End,
    {
        if self.next < self.batches.len() {
            let b = self.batches[self.next].clone();
            self.next = self.next + 1;
            SourcePoll::Batch(b)
        } else {
            SourcePoll::End
        }
    }

    /// Counts the report: the advance action runs exactly on a successful
    /// report (saturating at the machine bound), a failed one is only
    /// tallied, and the run is never asked to stop.
    fn deliver_result(&mut self, delivered: bool) -> (stop: bool)
        ensures
            !stop,
            final(self).batches == old(self).batches,
            final(self).next == old(self).next,
            delivered ==> {
                &&& final(self).rejected == old(self).rejected
                &&& final(self).advanced == if old(self).advanced < u64::MAX {
                    (old(self).advanced + 1) as u64
                } else {
                    old(self).advanced
                }
            },
            !delivered ==> {
                &&& final(self).advanced == old(self).advanced
                &&& final(self).rejected == if old(self).rejected < u64::MAX {
                    (old(self).rejected + 1) as u64
                } else {
                    old(self).rejected
                }
            },
    {
        if delivered {
            if self.advanced < u64::MAX {
                self.advanced = self.advanced + 1;
            }
        } else {
            if self.rejected < u64::MAX {
                self.rejected = self.rejected + 1;
            }
        }
        false
    }
}

/// That a transaction went from open to resolved: acknowledged on success,
/// failed on failure, its batch untouched either way.
pub open spec fn transaction_resolved(pre: Transaction, post: Transaction, ok: bool) -> bool {
    &&& pre.ack.is_pending()
    &&& post.batch == pre.batch
    &&& if ok {
        post.ack.is_acked()
    } else {
        post.ack.is_failed()
    }
}

/// One transaction is acknowledged exactly once: a resolved transaction is
/// acknowledged exactly when it succeeded, is failed exactly when it did
/// not, and is in either case no longer open — so no second acknowledgment
/// (whose precondition is an open handle) can ever be given for it.
pub proof fn lemma_ack_discipline(pre: Transaction, post: Transaction, ok: bool)
    requires
        transaction_resolved(pre, post, ok),
    ensures
        post.ack.is_acked() <==> ok,
        post.ack.is_failed() <==> !ok,
        !post.ack.is_pending(),
{
}

/// Drives one transaction: folds its batch through the processor chain,
/// writes every resulting batch to the sink, and resolves the acknowledgment
/// handle — acknowledged exactly on full success, failed on the first error,
/// in every case exactly once.
pub fn resolve_transaction<P: Processor, S: Sink>(
    procs: &Vec<P>,
    tx: &mut Transaction,
    sink: &mut S,
) -> (r: Result<(), PipelineError>)
    requires
        old(tx).ack.is_pending(),
    ensures
        transaction_resolved(*old(tx), *final(tx), r is Ok),
{
    let mut current: Vec<MessageBatch> = Vec::new();
    current.push(tx.batch.clone());
    let mut i: usize = 0;
    while i < procs.len()
        invariant
            0 <= i <= procs.len(),
            old(tx).ack.is_pending(),
            tx.ack.is_pending(),
            tx.batch == old(tx).batch,
        decreases procs.len() - i,
    {
        let mut next: Vec<MessageBatch> = Vec::new();
        let mut j: usize = 0;
        while j < current.len()
            invariant
                0 <= i < procs.len(),
                0 <= j <= current.len(),
                old(tx).ack.is_pending(),
                tx.ack.is_pending(),
                tx.batch == old(tx).batch,
            decreases current.len() - j,
        {
            match procs[i].process(&current[j]) {
                Ok(mut outs) => {
                    next.append(&mut outs);
                },
                Err(e) => {
                    tx.ack.fail();
                    return Err(e);
                },
            }
            j = j + 1;
        }
        current = next;
        i = i + 1;
    }
    let mut k: usize = 0;
    while k < current.len()
        invariant
            0 <= k <= current.len(),
            old(tx).ack.is_pending(),
            tx.ack.is_pending(),
            tx.batch == old(tx).batch,
        decreases current.len() - k,
    {
        match sink.write(&current[k]) {
            Ok(_) => {},
            Err(e) => {
                tx.ack.fail();
                return Err(e);
            },
        }
        k = k + 1;
    }
    tx.ack.acknowledge();
    Ok(())
}

/// The batches one whole run delivers: each fed batch's chain output, in
/// feed order.
pub open spec fn spec_run_outputs(procs: Seq<ProcView>, batches: Seq<BatchView>) -> Seq<
    BatchView,
>
    decreases batches.len(),
{
    if batches.len() == 0 {
        Seq::empty()
    } else {
        spec_chain(procs, seq![batches[0]]) + spec_run_outputs(procs, batches.drop_first())
    }
}

proof fn lemma_run_outputs_push(procs: Seq<ProcView>, batches: Seq<BatchView>, b: BatchView)
    ensures
        spec_run_outputs(procs, batches.push(b)) == spec_run_outputs(procs, batches)
            + spec_chain(procs, seq![b]),
    decreases batches.len(),
{
    if batches.len() == 0 {
        assert(batches.push(b).drop_first() =~= Seq::<BatchView>::empty());
        assert(batches.push(b)[0] == b);
        assert(spec_run_outputs(procs, batches.push(b)) == spec_chain(procs, seq![b])
            + spec_run_outputs(procs, Seq::<BatchView>::empty()));
        assert(spec_run_outputs(procs, Seq::<BatchView>::empty()) == Seq::<BatchView>::empty());
        assert(spec_run_outputs(procs, batches) == Seq::<BatchView>::empty());
        assert(spec_run_outputs(procs, batches.push(b)) =~~= spec_run_outputs(procs, batches)
            + spec_chain(procs, seq![b]));
    } else {
        assert(batches.push(b).drop_first() =~= batches.drop_first().push(b));
        assert(batches.push(b)[0] == batches[0]);
        lemma_run_outputs_push(procs, batches.drop_first(), b);
        assert(spec_run_outputs(procs, batches.push(b)) == spec_chain(procs, seq![batches[0]])
            + spec_run_outputs(procs, batches.drop_first().push(b)));
        assert(spec_run_outputs(procs, batches) == spec_chain(procs, seq![batches[0]])
            + spec_run_outputs(procs, batches.drop_first()));
        assert(spec_run_outputs(procs, batches.push(b)) =~~= spec_run_outputs(procs, batches)
            + spec_chain(procs, seq![b]));
    }
}

/// The engine's run, stated in full over the library's own components: every
/// batch the source still holds is taken in feed order, folded through the
/// chain, and its outputs appended to the sink in order — none dropped,
/// duplicated or reordered — before the next batch is touched; each batch's
/// transaction is resolved exactly once and its result reported to the
/// source, whose advance count therefore grows by exactly the number of
/// batches fed (these components never fail, so nothing is ever rejected).
pub fn run_pipeline(source: &mut VecSource, pipeline: &Pipeline, sink: &mut MemorySink) -> (r:
    Result<(), PipelineError>)
    requires
        old(source).next <= old(source).batches@.len(),
        old(source).advanced + old(source).batches@.len() - old(source).next <= u64::MAX,
    ensures
        r is Ok,
        final(source).batches == old(source).batches,
        final(source).next == old(source).batches@.len(),
        final(source).rejected == old(source).rejected,
        final(source).advanced == old(source).advanced + old(source).batches@.len() - old(
            source,
        ).next,
        final(sink).received.deep_view() == old(sink).received.deep_view() + spec_run_outputs(
            pipeline.processors.deep_view(),
            old(source).batches.deep_view().skip(old(source).next as int),
        ),
{
    let ghost start_next = old(source).next as int;
    proof {
        assert(old(source).batches.deep_view().subrange(start_next, start_next)
            =~= Seq::<BatchView>::empty());
        assert(old(sink).received.deep_view() + spec_run_outputs(
            pipeline.processors.deep_view(),
            old(source).batches.deep_view().subrange(start_next, start_next),
        ) =~~= old(sink).received.deep_view());
    }
    while source.next < source.batches.len()
        invariant
            source.batches == old(source).batches,
            start_next == old(source).next,
            old(source).next <= source.next <= source.batches@.len(),
            source.rejected == old(source).rejected,
            source.advanced == old(source).advanced + source.next - old(source).next,
            old(source).advanced + old(source).batches@.len() - old(source).next <= u64::MAX,
            sink.received.deep_view() == old(sink).received.deep_view() + spec_run_outputs(
                pipeline.processors.deep_view(),
                old(source).batches.deep_view().subrange(start_next, source.next as int),
            ),
        decreases source.batches@.len() - source.next,
    {
        let ghost pre_next = source.next as int;
        let ghost fed = old(source).batches.deep_view().subrange(start_next, pre_next);
        let b = match source.next_batch() {
            SourcePoll::Batch(b) => b,
            SourcePoll::End => {
                proof {
                    assert(false);
                }
                return Ok(());
            },
            SourcePoll::Fail(msg) => {
                proof {
                    assert(false);
                }
                return Err(PipelineError::Source(msg));
            },
        };
        let mut tx = Transaction::new(b);
        let ghost bv = tx.batch@;
        proof {
            assert(bv == old(source).batches.deep_view()[pre_next]);
        }
        let outs = process_chain(&pipeline.processors, &tx.batch);
        let ghost pre_sink = sink.received.deep_view();
        let mut k: usize = 0;
        proof {
            assert(pre_sink + outs.deep_view().take(0) =~~= pre_sink);
        }
        while k < outs.len()
            invariant
                0 <= k <= outs.len(),
                outs.deep_view().len() == outs.len(),
                sink.received.deep_view() == pre_sink + outs.deep_view().take(k as int),
                tx.ack.is_pending(),
                tx.batch@ == bv,
            decreases outs.len() - k,
        {
            match sink.write(&outs[k]) {
                Ok(_) => {},
                Err(e) => {
                    // the in-memory sink never fails
                    proof {
                        assert(false);
                    }
                    tx.ack.fail();
                    return Err(e);
                },
            }
            proof {
                assert(outs.deep_view()[k as int] == outs[k as int]@);
                assert(pre_sink + outs.deep_view().take(k as int).push(outs.deep_view()[
                    k as int]) =~~= sink.received.deep_view());
                assert(outs.deep_view().take(k as int).push(outs.deep_view()[k as int])
                    =~~= outs.deep_view().take(k as int + 1));
            }
            k = k + 1;
        }
        tx.ack.acknowledge();
        let stopped = source.deliver_result(true);
        proof {
            assert(!stopped);
            assert(outs.deep_view().take(outs.len() as int) =~~= outs.deep_view());
            assert(tx.batch@ == old(source).batches.deep_view()[pre_next]);
            lemma_run_outputs_push(
                pipeline.processors.deep_view(),
                fed,
                old(source).batches.deep_view()[pre_next],
            );
            assert(fed.push(old(source).batches.deep_view()[pre_next]) =~= old(
                source,
            ).batches.deep_view().subrange(start_next, pre_next + 1));
            assert(old(sink).received.deep_view() + (spec_run_outputs(
                pipeline.processors.deep_view(),
                fed,
            ) + spec_chain(pipeline.processors.deep_view(), seq![tx.batch@])) =~~= (old(
                sink,
            ).received.deep_view() + spec_run_outputs(pipeline.processors.deep_view(), fed))
                + spec_chain(pipeline.processors.deep_view(), seq![tx.batch@]));
        }
    }
    proof {
        assert(old(source).batches.deep_view().subrange(start_next, source.next as int)
            =~= old(source).batches.deep_view().skip(start_next));
    }
    Ok(())
}

/// The run loop: transactions are driven one at a time, strictly in order —
/// a batch never begins processing before the previous one was resolved and
/// its result reported back to the source. The loop ends when the feed is
/// exhausted (`Ok`), when it fails (`Err`), or when the source asks to stop
/// after hearing a delivery result.
///
/// Every observable here belongs to the caller's source, processors and
/// sink, whose trait methods promise nothing, so no more can be stated of
/// this fully pluggable loop; `run_pipeline` states and proves the run's
/// effects in full over the library's own components.
pub fn start_stream_processor<I: Source, P: Processor, O: Sink>(
    input: &mut I,
    procs: &Vec<P>,
    output: &mut O,
) -> (r: Result<(), PipelineError>)
{
    let mut steps: u64 = 0;
    // one run handles a machine-bounded number of transactions
    while steps < u64::MAX
        decreases u64::MAX - steps,
    {
        match input.next_batch() {
            SourcePoll::End => {
                return Ok(());
            },
            SourcePoll::Fail(msg) => {
                return Err(PipelineError::Source(msg));
            },
            SourcePoll::Batch(b) => {
                let mut tx = Transaction::new(b);
                let outcome = resolve_transaction(procs, &mut tx, output);
                let stop = input.deliver_result(outcome.is_ok());
                if stop {
                    return outcome;
                }
            },
        }
        steps = steps + 1;
    }
    Ok(())
}

} // verus!
