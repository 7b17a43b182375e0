//! Behaviour of the stream channel: producer/consumer pairs, send failures,
//! end-of-stream signalling and the advisory readiness hint.

use ocl_stream::result::{OCLStreamError, OCLStreamResult};
use ocl_stream::stream::{bounded, create, resolve_received, resolve_send_outcome, unbounded};

#[test]
fn items_arrive_in_send_order() {
    let (mut stream, sender) = create::<u64>();
    sender.send(1).unwrap();
    sender.send(2).unwrap();
    sender.send(3).unwrap();
    drop(sender);
    assert_eq!(stream.next().unwrap(), 1);
    assert_eq!(stream.next().unwrap(), 2);
    assert_eq!(stream.next().unwrap(), 3);
    assert!(matches!(stream.next(), Err(OCLStreamError::RecvError)));
}

#[test]
fn send_fails_with_send_error_after_consumer_dropped() {
    let (stream, sender) = unbounded::<u64>();
    drop(stream);
    let outcome = sender.send(7);
    assert!(matches!(outcome, Err(OCLStreamError::SendError)));
}

#[test]
fn err_fails_with_send_error_after_consumer_dropped() {
    let (stream, sender) = bounded::<u64>(4);
    drop(stream);
    let outcome = sender.err(OCLStreamError::OCLError("lost".to_string()));
    assert!(matches!(outcome, Err(OCLStreamError::SendError)));
}

#[test]
fn end_of_stream_is_recv_error() {
    let (mut stream, sender) = unbounded::<u64>();
    drop(sender);
    assert!(matches!(stream.next(), Err(OCLStreamError::RecvError)));
}

#[test]
fn delivered_error_stays_distinct_from_end_of_stream() {
    let (mut stream, sender) = unbounded::<u64>();
    sender
        .err(OCLStreamError::OCLError("kernel failed".to_string()))
        .unwrap();
    drop(sender);
    match stream.next() {
        Err(OCLStreamError::OCLError(msg)) => assert_eq!(msg, "kernel failed"),
        other => panic!("expected the delivered error first, got {:?}", other),
    }
    assert!(matches!(stream.next(), Err(OCLStreamError::RecvError)));
}

#[test]
fn has_next_reflects_buffered_items() {
    let (mut stream, sender) = bounded::<u64>(5);
    assert!(!stream.has_next());
    sender.send(11).unwrap();
    assert!(stream.has_next());
    assert_eq!(stream.next().unwrap(), 11);
    assert!(!stream.has_next());
    drop(sender);
    assert!(!stream.has_next());
}

#[test]
fn bounded_channel_holds_up_to_capacity() {
    let (mut stream, sender) = bounded::<u64>(3);
    sender.send(1).unwrap();
    sender.send(2).unwrap();
    sender.send(3).unwrap();
    drop(sender);
    assert_eq!(stream.next().unwrap(), 1);
    assert_eq!(stream.next().unwrap(), 2);
    assert_eq!(stream.next().unwrap(), 3);
    assert!(matches!(stream.next(), Err(OCLStreamError::RecvError)));
}

#[test]
fn resolve_received_passes_delivered_items_through() {
    let delivered: Result<OCLStreamResult<u64>, ()> = Ok(Ok(5));
    assert_eq!(resolve_received(delivered), Ok(5));
    let failed: Result<OCLStreamResult<u64>, ()> = Ok(Err(OCLStreamError::OCLError(
        "enqueue failed".to_string(),
    )));
    match resolve_received(failed) {
        Err(OCLStreamError::OCLError(msg)) => assert_eq!(msg, "enqueue failed"),
        other => panic!("expected the delivered error, got {:?}", other),
    }
    let closed: Result<OCLStreamResult<u64>, ()> = Err(());
    assert!(matches!(
        resolve_received(closed),
        Err(OCLStreamError::RecvError)
    ));
}

#[test]
fn resolve_send_outcome_maps_rejections_to_send_error() {
    let accepted: Result<(), OCLStreamResult<u64>> = Ok(());
    assert_eq!(resolve_send_outcome(accepted), Ok(()));
    let rejected: Result<(), OCLStreamResult<u64>> = Err(Ok(9));
    assert!(matches!(
        resolve_send_outcome(rejected),
        Err(OCLStreamError::SendError)
    ));
}

#[test]
fn error_equality_compares_variant_and_text() {
    let a = OCLStreamError::OCLError("x".to_string());
    let b = OCLStreamError::OCLError("x".to_string());
    let c = OCLStreamError::OCLError("y".to_string());
    assert_eq!(a, b);
    assert_ne!(a, c);
    assert_ne!(a, OCLStreamError::RecvError);
    assert_eq!(OCLStreamError::RecvError, OCLStreamError::RecvError);
    assert_eq!(OCLStreamError::SendError, OCLStreamError::SendError);
    assert_ne!(OCLStreamError::RecvError, OCLStreamError::SendError);
}

#[test]
fn cloned_sender_feeds_the_same_channel() {
    let (mut stream, sender) = unbounded::<u64>();
    let second = sender.clone();
    sender.send(1).unwrap();
    second.send(2).unwrap();
    drop(sender);
    assert_eq!(stream.next().unwrap(), 1);
    // The channel stays open as long as one clone is alive.
    assert_eq!(stream.next().unwrap(), 2);
    second.send(3).unwrap();
    drop(second);
    assert_eq!(stream.next().unwrap(), 3);
    assert!(matches!(stream.next(), Err(OCLStreamError::RecvError)));
}
