//! Multi-source event aggregation as an explicit, caller-driven state
//! machine. The caller owns the readiness multiplexer (which buffer became
//! readable, what its drained batch holds, whether the sink kept up) and
//! hands each observation in as one event; the aggregator decides, for
//! every possible event, what happens next. Ordering within one buffer is
//! FIFO — a drained batch is delivered exactly as it arrived — and no
//! ordering is imposed across buffers. One buffer's read error is reported
//! and isolated; only cancellation or a multiplexer fault ends the stream,
//! and either releases every bound buffer.

use vstd::prelude::*;
use crate::binder::BoundBuffer;
use crate::errors::PipelineError;

verus! {

/// One delivery unit: the raw byte buffers drained from a single ring
/// buffer on one readiness notification, in arrival (FIFO) order.
#[derive(Debug)]
pub struct EventBatch {
    pub events: Vec<Vec<u8>>,
}

/// The aggregator's lifecycle. Terminal states hold no buffers.
#[derive(Clone, Copy, Debug, PartialEq, Eq, Structural)]
pub enum AggregatorState {
    Streaming,
    Cancelled,
    Faulted,
}

/// What the multiplexer observed on one turn of the loop.
#[derive(Debug)]
pub enum AggregatorEvent {
    /// One bound buffer became readable and its pending batch was drained.
    Readiness { buffer: usize, batch: EventBatch },
    /// One bound buffer's read failed.
    ReadError { buffer: usize },
    /// The consumer-supplied sink failed on the batch it was given.
    ConsumerFailed,
    /// The caller asked for shutdown.
    Cancel,
    /// The multiplexer itself failed.
    Fault,
}

/// What the caller must do after handing the aggregator one event.
#[derive(Debug)]
pub enum AggregatorAction {
    /// Pass this batch to the consumer: it came from the given buffer and
    /// keeps that buffer's FIFO order.
    Deliver { buffer: usize, batch: EventBatch },
    /// Report this buffer's read failure on the error channel and keep
    /// streaming: the failure stays isolated to that buffer.
    ReportRead { buffer: usize },
    /// Report the sink's failure and keep streaming: the configured policy
    /// chose not to stop.
    ReportConsumer,
    /// Leave the loop; a fatal error is attached when one caused the stop.
    Stop { error: Option<PipelineError> },
    /// Nothing to do: a stale event after termination, or a notice for a
    /// buffer the aggregator does not know.
    Idle,
}

/// The state one event leads to. Terminal states absorb every event; while
/// streaming, only cancellation, a multiplexer fault, or — under the
/// stop-on-consumer-error policy — a sink failure ends the stream.
pub open spec fn next_state(
    st: AggregatorState,
    stop_on_consumer_error: bool,
    e: AggregatorEvent,
) -> AggregatorState {
    if st != AggregatorState::Streaming {
        st
    } else {
        match e {
            AggregatorEvent::Cancel => AggregatorState::Cancelled,
            AggregatorEvent::Fault => AggregatorState::Faulted,
            AggregatorEvent::ConsumerFailed => if stop_on_consumer_error {
                AggregatorState::Cancelled
            } else {
                AggregatorState::Streaming
            },
            _ => AggregatorState::Streaming,
        }
    }
}

/// The action one event commands, given the state and how many buffers are
/// bound. A drained batch from a known buffer is delivered unchanged; after
/// termination nothing is ever delivered again.
pub open spec fn expected_action(
    st: AggregatorState,
    stop_on_consumer_error: bool,
    n_buffers: nat,
    e: AggregatorEvent,
) -> AggregatorAction {
    if st != AggregatorState::Streaming {
        AggregatorAction::Idle
    } else {
        match e {
            AggregatorEvent::Readiness { buffer, batch } => if buffer < n_buffers {
                AggregatorAction::Deliver { buffer, batch }
            } else {
                AggregatorAction::Idle
            },
            AggregatorEvent::ReadError { buffer } => if buffer < n_buffers {
                AggregatorAction::ReportRead { buffer }
            } else {
                AggregatorAction::Idle
            },
            AggregatorEvent::ConsumerFailed => if stop_on_consumer_error {
                AggregatorAction::Stop { error: Some(PipelineError::Consumer) }
            } else {
                AggregatorAction::ReportConsumer
            },
            AggregatorEvent::Cancel => AggregatorAction::Stop { error: None },
            AggregatorEvent::Fault => AggregatorAction::Stop {
                error: Some(PipelineError::StreamFault),
            },
        }
    }
}

/// The merged, non-restartable stream over all bound buffers. It owns the
/// buffers for its whole lifetime and releases them on termination.
pub struct StreamAggregator {
    pub buffers: Vec<BoundBuffer>,
    pub state: AggregatorState,
    /// The caller's explicit policy for sink failures: stop the whole
    /// stream, or report and keep delivering from every source.
    pub stop_on_consumer_error: bool,
}

impl StreamAggregator {
    /// A terminal aggregator holds no buffers: cancellation or a fatal
    /// fault releases every bound buffer.
    pub open spec fn wf(self) -> bool {
        self.state != AggregatorState::Streaming ==> self.buffers@.len() == 0
    }

    /// Takes exclusive ownership of the bound buffers and starts the
    /// streaming phase.
    pub fn new(buffers: Vec<BoundBuffer>, stop_on_consumer_error: bool) -> (a: StreamAggregator)
        ensures
            a.wf(),
            a.state == AggregatorState::Streaming,
            a.buffers@ == buffers@,
            a.stop_on_consumer_error == stop_on_consumer_error,
    {
        StreamAggregator { buffers, state: AggregatorState::Streaming, stop_on_consumer_error }
    }

    /// Feeds one multiplexer observation through the state machine and
    /// returns what the caller must do with it. Every event is total: no
    /// observation can wedge the aggregator.
    pub fn step(&mut self, event: AggregatorEvent) -> (action: AggregatorAction)
        requires
            old(self).wf(),
        ensures
            final(self).wf(),
            final(self).state == next_state(
                old(self).state,
                old(self).stop_on_consumer_error,
                event,
            ),
            final(self).stop_on_consumer_error == old(self).stop_on_consumer_error,
            final(self).state == AggregatorState::Streaming ==> final(self).buffers@ == old(
                self,
            ).buffers@,
            final(self).state != AggregatorState::Streaming ==> final(self).buffers@.len() == 0,
            action == expected_action(
                old(self).state,
                old(self).stop_on_consumer_error,
                old(self).buffers@.len(),
                event,
            ),
    {
        match self.state {
            AggregatorState::Streaming => match event {
                AggregatorEvent::Readiness { buffer, batch } => {
                    if buffer < self.buffers.len() {
                        AggregatorAction::Deliver { buffer, batch }
                    } else {
                        AggregatorAction::Idle
                    }
                },
                AggregatorEvent::ReadError { buffer } => {
                    if buffer < self.buffers.len() {
                        AggregatorAction::ReportRead { buffer }
                    } else {
                        AggregatorAction::Idle
                    }
                },
                AggregatorEvent::ConsumerFailed => {
                    if self.stop_on_consumer_error {
                        self.state = AggregatorState::Cancelled;
                        self.buffers = Vec::new();
                        AggregatorAction::Stop { error: Some(PipelineError::Consumer) }
                    } else {
                        AggregatorAction::ReportConsumer
                    }
                },
                AggregatorEvent::Cancel => {
                    self.state = AggregatorState::Cancelled;
                    self.buffers = Vec::new();
                    AggregatorAction::Stop { error: None }
                },
                AggregatorEvent::Fault => {
                    self.state = AggregatorState::Faulted;
                    self.buffers = Vec::new();
                    AggregatorAction::Stop { error: Some(PipelineError::StreamFault) }
                },
            },
            _ => AggregatorAction::Idle,
        }
    }

    /// Cancels the stream: stops polling, releases every bound buffer, and
    /// never re-enters the loop.
    pub fn cancel(&mut self) -> (action: AggregatorAction)
        requires
            old(self).wf(),
        ensures
            final(self).wf(),
            final(self).state == next_state(
                old(self).state,
                old(self).stop_on_consumer_error,
                AggregatorEvent::Cancel,
            ),
            final(self).buffers@.len() == 0,
            action == expected_action(
                old(self).state,
                old(self).stop_on_consumer_error,
                old(self).buffers@.len(),
                AggregatorEvent::Cancel,
            ),
    {
        self.step(AggregatorEvent::Cancel)
    }
}

/// Once cancelled, the aggregator holds no buffers, stays cancelled under
/// every possible event, and no event can ever make it deliver a batch
/// again.
pub proof fn lemma_cancelled_delivers_nothing(a: StreamAggregator, e: AggregatorEvent)
    requires
        a.wf(),
        a.state == AggregatorState::Cancelled,
    ensures
        a.buffers@.len() == 0,
        next_state(a.state, a.stop_on_consumer_error, e) == AggregatorState::Cancelled,
        expected_action(a.state, a.stop_on_consumer_error, a.buffers@.len(), e)
            == AggregatorAction::Idle,
{
}

/// Failure isolation in the streaming phase: a single buffer's read error
/// leaves the aggregator streaming, keeps every bound buffer, and commands
/// nothing but a report tagged with that buffer.
pub proof fn lemma_read_error_isolated(
    stop_on_consumer_error: bool,
    n_buffers: nat,
    buffer: usize,
)
    requires
        buffer < n_buffers,
    ensures
        next_state(
            AggregatorState::Streaming,
            stop_on_consumer_error,
            AggregatorEvent::ReadError { buffer },
        ) == AggregatorState::Streaming,
        expected_action(
            AggregatorState::Streaming,
            stop_on_consumer_error,
            n_buffers,
            AggregatorEvent::ReadError { buffer },
        ) == (AggregatorAction::ReportRead { buffer }),
{
}

} // verus!
