use multiruntime_streams::ops::flat_map::{flat_map_step, FlatMapStep};
use multiruntime_streams::ops::poll_on::{open_channels, ForwardStep, Forwarder};

/// Runs the forwarding decisions over `items`, sending into a channel of
/// `capacity` without waiting, and returns what the downstream end receives.
fn forward_all(items: Vec<i32>, capacity: usize) -> (Vec<i32>, bool) {
    let ch = open_channels::<i32>(capacity);
    let items_tx = ch.items_tx.into_inner();
    let mut items_rx = ch.items_rx.into_inner();
    let mut f = Forwarder::new();
    let mut upstream = items.into_iter();
    let mut received = Vec::new();
    loop {
        match f.on_next(upstream.next()) {
            ForwardStep::Send(x) => {
                let accepted = items_tx.try_send(x).is_ok();
                f.on_sent(accepted);
                while let Ok(v) = items_rx.try_recv() {
                    received.push(v);
                }
            }
            ForwardStep::Finish => break,
        }
    }
    (received, f.is_finished())
}

#[test]
fn forwarding_delivers_items_in_order() {
    let (received, finished) = forward_all(vec![1, 2, 3], 256);
    assert_eq!(received, vec![1, 2, 3]);
    assert!(finished);
}

#[test]
fn forwarding_with_small_capacity() {
    let (received, _) = forward_all((0..100).collect(), 16);
    assert_eq!(received, (0..100).collect::<Vec<_>>());
}

#[test]
fn forwarder_stops_at_end_and_stays_stopped() {
    let mut f = Forwarder::new();
    assert!(!f.is_finished());
    assert!(matches!(f.on_next(Some(1)), ForwardStep::Send(1)));
    f.on_sent(true);
    assert!(!f.is_finished());
    assert!(matches!(f.on_next(None), ForwardStep::Finish));
    assert!(f.is_finished());
    assert!(matches!(f.on_next(Some(2)), ForwardStep::Finish));
    assert!(f.is_finished());
}

#[test]
fn forwarder_stops_when_downstream_is_gone() {
    let mut f = Forwarder::new();
    assert!(matches!(f.on_next(Some(10)), ForwardStep::Send(10)));
    f.on_sent(false);
    assert!(f.is_finished());
    assert!(matches!(f.on_next(Some(11)), ForwardStep::Finish));
}

#[test]
fn channel_is_bounded_by_capacity() {
    let ch = open_channels::<u8>(2);
    assert!(ch.items_tx.sender().try_send(1).is_ok());
    assert!(ch.items_tx.sender().try_send(2).is_ok());
    assert!(ch.items_tx.sender().try_send(3).is_err());
    assert_eq!(ch.items_tx.sender().max_capacity(), 2);
}

#[test]
fn cancel_signal_fires_once() {
    let mut ch = open_channels::<u8>(4);
    assert!(ch.cancel.armed());
    assert!(ch.cancel.fire());
    assert!(!ch.cancel.armed());
    assert!(!ch.cancel.fire());
    assert!(ch.cancelled.into_inner().try_recv().is_ok());
}

#[test]
fn cancel_signal_fires_without_a_listener() {
    let mut ch = open_channels::<u8>(4);
    drop(ch.cancelled.into_inner());
    assert!(ch.cancel.fire());
    assert!(!ch.cancel.fire());
}

#[test]
fn flat_map_emits_values_and_ends() {
    assert!(matches!(flat_map_step(Some(Ok(3))), FlatMapStep::Emit(3)));
    assert!(matches!(flat_map_step::<i32>(None), FlatMapStep::End));
}

#[test]
fn flat_map_fails_on_a_failed_task() {
    let rt = tokio::runtime::Builder::new_current_thread().build().unwrap();
    let handle = rt.spawn(std::future::pending::<i32>());
    handle.abort();
    let outcome = rt.block_on(handle);
    assert!(outcome.is_err());
    match flat_map_step(Some(outcome)) {
        FlatMapStep::Fail(e) => assert!(e.is_cancelled()),
        _ => panic!("a failed task must fail the stream"),
    }
}
