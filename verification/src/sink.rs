//! The batch sink: it gathers embeddings and hands them out in batches.
//!
//! The sink owns one batch. A batch leaves the sink when it has grown to the
//! configured size, on a timer tick if it holds anything, and when the input
//! closes. The sink hands a batch out and forgets it in the same step: whether
//! the store then accepts the batch does not change what the sink holds.

use vstd::prelude::*;
use crate::types::{Embedding, EmbeddingModel};

verus! {

/// The batch size unless configured otherwise.
pub const DEFAULT_MAX_BATCH_SIZE: usize = 100;

/// The time between two ticks of the flush timer, in milliseconds, unless
/// configured otherwise.
pub const DEFAULT_FLUSH_INTERVAL_MILLIS: u64 = 500;

/// The models of the records of a batch, in order.
pub open spec fn batch_model(batch: Seq<Embedding>) -> Seq<EmbeddingModel> {
    batch.map_values(|e: Embedding| e@)
}

/// What can happen to the sink.
#[derive(Debug, PartialEq, Eq)]
pub enum SinkEvent {
    /// A record arrived.
    Record(Embedding),
    /// The flush timer fired.
    Tick,
    /// The input closed: nothing more will arrive.
    Closed,
}

/// Model of a [`SinkEvent`].
pub ghost enum SinkInput {
    Record(EmbeddingModel),
    Tick,
    Closed,
}

impl View for SinkEvent {
    type V = SinkInput;

    open spec fn view(&self) -> SinkInput {
        match self {
            SinkEvent::Record(e) => SinkInput::Record(e@),
            SinkEvent::Tick => SinkInput::Tick,
            SinkEvent::Closed => SinkInput::Closed,
        }
    }
}

/// What the caller has to do after a step of the sink.
#[derive(Debug, PartialEq, Eq)]
pub struct SinkAction {
    /// The batch to write to the store as one insert, if one is due.
    pub flush: Option<Vec<Embedding>>,
    /// Whether the flush timer starts over.
    pub restart_timer: bool,
    /// Whether the sink is done.
    pub stop: bool,
}

/// Model of a step: what the sink holds afterwards, and the action.
pub ghost struct SinkOutcome {
    pub pending: Seq<EmbeddingModel>,
    pub flushed: Option<Seq<EmbeddingModel>>,
    pub restart_timer: bool,
    pub stop: bool,
}

impl SinkAction {
    /// The model of the batch to flush, if any.
    pub open spec fn flushed(&self) -> Option<Seq<EmbeddingModel>> {
        match self.flush {
            Some(batch) => Some(batch_model(batch@)),
            None => None,
        }
    }

    /// Whether this action is the one that `outcome` describes.
    pub open spec fn matches_outcome(&self, outcome: SinkOutcome) -> bool {
        &&& self.flushed() == outcome.flushed
        &&& self.restart_timer == outcome.restart_timer
        &&& self.stop == outcome.stop
    }
}

/// A record arrives: it joins the batch, and if the batch has then reached
/// `max` records the whole batch is flushed and the timer starts over.
pub open spec fn record_outcome(
    pending: Seq<EmbeddingModel>,
    max: nat,
    record: EmbeddingModel,
) -> SinkOutcome {
    let grown = pending.push(record);
    if grown.len() >= max {
        SinkOutcome {
            pending: Seq::empty(),
            flushed: Some(grown),
            restart_timer: true,
            stop: false,
        }
    } else {
        SinkOutcome { pending: grown, flushed: None, restart_timer: false, stop: false }
    }
}

/// The timer fires: a batch that holds anything is flushed, whatever its size.
pub open spec fn tick_outcome(pending: Seq<EmbeddingModel>) -> SinkOutcome {
    if pending.len() > 0 {
        SinkOutcome {
            pending: Seq::empty(),
            flushed: Some(pending),
            restart_timer: false,
            stop: false,
        }
    } else {
        SinkOutcome { pending: pending, flushed: None, restart_timer: false, stop: false }
    }
}

/// The input closes: what remains is flushed once, and the sink stops.
pub open spec fn close_outcome(pending: Seq<EmbeddingModel>) -> SinkOutcome {
    if pending.len() > 0 {
        SinkOutcome {
            pending: Seq::empty(),
            flushed: Some(pending),
            restart_timer: false,
            stop: true,
        }
    } else {
        SinkOutcome { pending: pending, flushed: None, restart_timer: false, stop: true }
    }
}

/// One step of the sink on any input.
pub open spec fn sink_outcome(pending: Seq<EmbeddingModel>, max: nat, input: SinkInput) -> SinkOutcome {
    match input {
        SinkInput::Record(record) => record_outcome(pending, max, record),
        SinkInput::Tick => tick_outcome(pending),
        SinkInput::Closed => close_outcome(pending),
    }
}

/// The most records that the sink holds between two steps: fewer than the
/// batch size, and none where the batch size is zero.
pub open spec fn holds_less_than_a_batch(pending: Seq<EmbeddingModel>, max: nat) -> bool {
    pending.len() == 0 || pending.len() < max
}

/// Accumulates embeddings and releases them batch by batch.
pub struct BatchSink {
    batch: Vec<Embedding>,
    max_batch_size: usize,
}

impl BatchSink {
    /// The sink's invariant: between two steps it never holds a full batch.
    pub closed spec fn wf(&self) -> bool {
        holds_less_than_a_batch(self.pending(), self.max())
    }

    /// The records that wait in the sink, oldest first.
    pub closed spec fn pending(&self) -> Seq<EmbeddingModel> {
        batch_model(self.batch@)
    }

    /// The batch size at which the sink flushes without waiting for the timer.
    pub closed spec fn max(&self) -> nat {
        self.max_batch_size as nat
    }

    /// An empty sink that flushes as soon as it holds `max_batch_size` records.
    pub fn new(max_batch_size: usize) -> (sink: Self)
        ensures
            sink.wf(),
            sink.pending() == Seq::<EmbeddingModel>::empty(),
            sink.max() == max_batch_size,
    {
        let sink = BatchSink { batch: Vec::new(), max_batch_size };
        assert(sink.pending() =~= Seq::<EmbeddingModel>::empty());
        sink
    }

    /// The configured batch size.
    pub fn max_batch_size(&self) -> (n: usize)
        ensures
            n == self.max(),
    {
        self.max_batch_size
    }

    /// The number of records that wait in the sink.
    pub fn len(&self) -> (n: usize)
        ensures
            n == self.pending().len(),
    {
        self.batch.len()
    }

    /// A well-formed sink holds nothing, or fewer records than a batch.
    pub proof fn lemma_wf_bounds_pending(&self)
        requires
            self.wf(),
        ensures
            holds_less_than_a_batch(self.pending(), self.max()),
    {
    }

    /// Whether nothing waits in the sink.
    pub fn is_empty(&self) -> (b: bool)
        ensures
            b == (self.pending().len() == 0),
    {
        self.batch.len() == 0
    }

    /// Takes the whole batch out and leaves the sink empty.
    fn take_batch(&mut self) -> (batch: Vec<Embedding>)
        ensures
            final(self).wf(),
            batch_model(batch@) == old(self).pending(),
            final(self).pending() == Seq::<EmbeddingModel>::empty(),
            final(self).max() == old(self).max(),
    {
        let mut batch: Vec<Embedding> = Vec::new();
        std::mem::swap(&mut self.batch, &mut batch);
        assert(self.pending() =~= Seq::<EmbeddingModel>::empty());
        batch
    }

    /// A record arrives. It is appended; a batch that has reached the
    /// configured size is handed out at once, and the timer starts over.
    pub fn push(&mut self, record: Embedding) -> (action: SinkAction)
        requires
            old(self).wf(),
        ensures
            final(self).wf(),
            action.matches_outcome(record_outcome(old(self).pending(), old(self).max(), record@)),
            final(self).pending() == record_outcome(
                old(self).pending(),
                old(self).max(),
                record@,
            ).pending,
            final(self).max() == old(self).max(),
    {
        let ghost before = self.batch@;
        self.batch.push(record);
        proof {
            assert(batch_model(self.batch@) =~= batch_model(before).push(record@));
        }
        if self.batch.len() >= self.max_batch_size {
            let batch = self.take_batch();
            SinkAction { flush: Some(batch), restart_timer: true, stop: false }
        } else {
            SinkAction { flush: None, restart_timer: false, stop: false }
        }
    }

    /// The flush timer fires. A batch that holds anything is handed out.
    pub fn tick(&mut self) -> (action: SinkAction)
        requires
            old(self).wf(),
        ensures
            final(self).wf(),
            action.matches_outcome(tick_outcome(old(self).pending())),
            final(self).pending() == tick_outcome(old(self).pending()).pending,
            final(self).max() == old(self).max(),
    {
        if self.batch.len() > 0 {
            let batch = self.take_batch();
            SinkAction { flush: Some(batch), restart_timer: false, stop: false }
        } else {
            SinkAction { flush: None, restart_timer: false, stop: false }
        }
    }

    /// The input closes. What remains is handed out, and the sink is done.
    pub fn close(&mut self) -> (action: SinkAction)
        requires
            old(self).wf(),
        ensures
            final(self).wf(),
            action.matches_outcome(close_outcome(old(self).pending())),
            final(self).pending() == close_outcome(old(self).pending()).pending,
            final(self).max() == old(self).max(),
    {
        if self.batch.len() > 0 {
            let batch = self.take_batch();
            SinkAction { flush: Some(batch), restart_timer: false, stop: true }
        } else {
            SinkAction { flush: None, restart_timer: false, stop: true }
        }
    }

    /// One step of the sink: the event decides which of `push`, `tick` and
    /// `close` runs.
    pub fn step(&mut self, event: SinkEvent) -> (action: SinkAction)
        requires
            old(self).wf(),
        ensures
            final(self).wf(),
            action.matches_outcome(sink_outcome(old(self).pending(), old(self).max(), event@)),
            final(self).pending() == sink_outcome(
                old(self).pending(),
                old(self).max(),
                event@,
            ).pending,
            final(self).max() == old(self).max(),
    {
        match event {
            SinkEvent::Record(record) => self.push(record),
            SinkEvent::Tick => self.tick(),
            SinkEvent::Closed => self.close(),
        }
    }
}

} // verus!
