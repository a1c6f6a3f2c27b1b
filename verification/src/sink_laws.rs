//! What holds of the batch sink over any run of events.

use vstd::prelude::*;
use crate::sink::{holds_less_than_a_batch, sink_outcome, SinkInput};
use crate::types::EmbeddingModel;

verus! {

/// What a run of the sink has produced: the batches flushed so far, in order,
/// and what still waits.
pub ghost struct SinkTrace {
    pub flushes: Seq<Seq<EmbeddingModel>>,
    pub pending: Seq<EmbeddingModel>,
}

/// The run of an empty sink of batch size `max` over `inputs`.
pub open spec fn replay(max: nat, inputs: Seq<SinkInput>) -> SinkTrace
    decreases inputs.len(),
{
    if inputs.len() == 0 {
        SinkTrace { flushes: Seq::empty(), pending: Seq::empty() }
    } else {
        let before = replay(max, inputs.drop_last());
        let outcome = sink_outcome(before.pending, max, inputs.last());
        SinkTrace {
            flushes: match outcome.flushed {
                Some(batch) => before.flushes.push(batch),
                None => before.flushes,
            },
            pending: outcome.pending,
        }
    }
}

/// The records among `inputs`, in order of arrival.
pub open spec fn records_of(inputs: Seq<SinkInput>) -> Seq<EmbeddingModel>
    decreases inputs.len(),
{
    if inputs.len() == 0 {
        Seq::empty()
    } else {
        match inputs.last() {
            SinkInput::Record(record) => records_of(inputs.drop_last()).push(record),
            _ => records_of(inputs.drop_last()),
        }
    }
}

/// The batches of `flushes` laid end to end.
pub open spec fn joined(flushes: Seq<Seq<EmbeddingModel>>) -> Seq<EmbeddingModel>
    decreases flushes.len(),
{
    if flushes.len() == 0 {
        Seq::empty()
    } else {
        joined(flushes.drop_last()) + flushes.last()
    }
}

/// Nothing is lost, doubled or reordered: after any run, the flushed batches
/// laid end to end, followed by what still waits, are exactly the records that
/// arrived, in the order of their arrival.
pub proof fn lemma_replay_conserves_records(max: nat, inputs: Seq<SinkInput>)
    ensures
        joined(replay(max, inputs).flushes) + replay(max, inputs).pending == records_of(inputs),
    decreases inputs.len(),
{
    if inputs.len() == 0 {
        assert(joined(replay(max, inputs).flushes) + replay(max, inputs).pending =~= records_of(
            inputs,
        ));
    } else {
        let before = replay(max, inputs.drop_last());
        lemma_replay_conserves_records(max, inputs.drop_last());
        let outcome = sink_outcome(before.pending, max, inputs.last());
        match outcome.flushed {
            Some(batch) => {
                assert(before.flushes.push(batch).drop_last() =~= before.flushes);
                assert(before.flushes.push(batch).last() == batch);
            },
            None => {},
        }
        assert(joined(replay(max, inputs).flushes) + replay(max, inputs).pending =~= records_of(
            inputs,
        ));
    }
}

/// After any run the sink holds less than a batch, and every batch that it
/// flushed holds at least one record and at most `max` (one, where `max` is
/// zero).
pub proof fn lemma_replay_batches_bounded(max: nat, inputs: Seq<SinkInput>)
    ensures
        holds_less_than_a_batch(replay(max, inputs).pending, max),
        forall|i: int|
            0 <= i < replay(max, inputs).flushes.len() ==> {
                let batch = #[trigger] replay(max, inputs).flushes[i];
                batch.len() >= 1 && (batch.len() <= max || batch.len() == 1)
            },
    decreases inputs.len(),
{
    if inputs.len() > 0 {
        lemma_replay_batches_bounded(max, inputs.drop_last());
    }
}

/// A flush happens exactly when it is due: a record that fills the batch to
/// `max` flushes it, a tick or a close flushes whatever waits, and no step
/// flushes an empty batch. A close always stops the sink; nothing else does.
pub proof fn lemma_flush_triggers(pending: Seq<EmbeddingModel>, max: nat, input: SinkInput)
    ensures
        ({
            let outcome = sink_outcome(pending, max, input);
            &&& outcome.flushed is Some <==> match input {
                SinkInput::Record(_) => pending.len() + 1 >= max,
                SinkInput::Tick => pending.len() > 0,
                SinkInput::Closed => pending.len() > 0,
            }
            &&& outcome.flushed is Some ==> outcome.pending.len() == 0
            &&& outcome.flushed is Some ==> outcome.flushed->0.len() > 0
            &&& outcome.stop <==> input is Closed
            &&& outcome.restart_timer <==> (input is Record && outcome.flushed is Some)
        }),
{
}

} // verus!
