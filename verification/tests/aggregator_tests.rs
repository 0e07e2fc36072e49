use cargo_bpf::aggregator::{
    AggregatorAction, AggregatorEvent, AggregatorState, EventBatch, StreamAggregator,
};
use cargo_bpf::binder::{BoundBuffer, RING_CAPACITY_PAGES};
use cargo_bpf::errors::PipelineError;

fn buffers(n: u32) -> Vec<BoundBuffer> {
    (0..n)
        .map(|cpu_id| BoundBuffer {
            map_name: "events".to_string(),
            cpu_id,
            capacity_pages: RING_CAPACITY_PAGES,
        })
        .collect()
}

fn batch(payloads: &[&[u8]]) -> EventBatch {
    EventBatch { events: payloads.iter().map(|p| p.to_vec()).collect() }
}

#[test]
fn readiness_delivers_the_drained_batch_unchanged() {
    let mut agg = StreamAggregator::new(buffers(2), false);
    let action = agg.step(AggregatorEvent::Readiness {
        buffer: 1,
        batch: batch(&[b"first", b"second"]),
    });
    match action {
        AggregatorAction::Deliver { buffer, batch } => {
            assert_eq!(buffer, 1);
            assert_eq!(batch.events, vec![b"first".to_vec(), b"second".to_vec()]);
        }
        other => panic!("expected a delivery, got {:?}", other),
    }
    assert_eq!(agg.state, AggregatorState::Streaming);
    assert_eq!(agg.buffers.len(), 2);
}

#[test]
fn cancel_releases_buffers_and_silences_the_stream() {
    let mut agg = StreamAggregator::new(buffers(3), false);
    let action = agg.cancel();
    match action {
        AggregatorAction::Stop { error: None } => {}
        other => panic!("expected a plain stop, got {:?}", other),
    }
    assert_eq!(agg.state, AggregatorState::Cancelled);
    assert!(agg.buffers.is_empty());
    // No further batch is ever delivered.
    let after = agg.step(AggregatorEvent::Readiness { buffer: 0, batch: batch(&[b"late"]) });
    assert!(matches!(after, AggregatorAction::Idle));
    assert_eq!(agg.state, AggregatorState::Cancelled);
}

#[test]
fn read_error_is_reported_but_isolated() {
    let mut agg = StreamAggregator::new(buffers(4), false);
    let action = agg.step(AggregatorEvent::ReadError { buffer: 2 });
    match action {
        AggregatorAction::ReportRead { buffer } => assert_eq!(buffer, 2),
        other => panic!("expected a read report, got {:?}", other),
    }
    assert_eq!(agg.state, AggregatorState::Streaming);
    assert_eq!(agg.buffers.len(), 4);
    // The sibling buffers still deliver.
    let next = agg.step(AggregatorEvent::Readiness { buffer: 0, batch: batch(&[b"x"]) });
    assert!(matches!(next, AggregatorAction::Deliver { buffer: 0, .. }));
}

#[test]
fn multiplexer_fault_is_fatal() {
    let mut agg = StreamAggregator::new(buffers(2), false);
    let action = agg.step(AggregatorEvent::Fault);
    match action {
        AggregatorAction::Stop { error: Some(PipelineError::StreamFault) } => {}
        other => panic!("expected a fatal stop, got {:?}", other),
    }
    assert_eq!(agg.state, AggregatorState::Faulted);
    assert!(agg.buffers.is_empty());
}

#[test]
fn consumer_failure_reported_under_continue_policy() {
    let mut agg = StreamAggregator::new(buffers(2), false);
    let action = agg.step(AggregatorEvent::ConsumerFailed);
    assert!(matches!(action, AggregatorAction::ReportConsumer));
    assert_eq!(agg.state, AggregatorState::Streaming);
    assert_eq!(agg.buffers.len(), 2);
}

#[test]
fn consumer_failure_stops_under_stop_policy() {
    let mut agg = StreamAggregator::new(buffers(2), true);
    let action = agg.step(AggregatorEvent::ConsumerFailed);
    match action {
        AggregatorAction::Stop { error: Some(PipelineError::Consumer) } => {}
        other => panic!("expected a consumer stop, got {:?}", other),
    }
    assert_eq!(agg.state, AggregatorState::Cancelled);
    assert!(agg.buffers.is_empty());
}

#[test]
fn readiness_for_unknown_buffer_is_ignored() {
    let mut agg = StreamAggregator::new(buffers(1), false);
    let action = agg.step(AggregatorEvent::Readiness { buffer: 7, batch: batch(&[b"x"]) });
    assert!(matches!(action, AggregatorAction::Idle));
    assert_eq!(agg.state, AggregatorState::Streaming);
}
