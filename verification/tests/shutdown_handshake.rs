// The shutdown handshake itself: ordering of delivery, completeness under
// disconnect, the single finalize step, and what happens to an event sent
// after the receiver is gone.

use storyteller::event_channel;
use storyteller::ChannelEventListener;
use storyteller::ChannelReporter;
use storyteller::CountingHandler;
use storyteller::EventRecvError;
use storyteller::EventReporterError;
use storyteller::RecordingHandler;
use storyteller::Reporter;

#[derive(Clone, Debug, Eq, PartialEq)]
struct MyEvent(usize);

// Events are handled in exactly the send order, followed by one finish.
#[test]
fn events_are_handled_in_send_order() {
    let (event_sender, event_receiver) = event_channel::<u64>();

    let mut reporter = ChannelReporter::new(event_sender);
    let mut listener = ChannelEventListener::new(event_receiver);
    let mut handler = RecordingHandler::new();

    for value in [41u64, 5, 41, 0, 77] {
        reporter.report_event(value).unwrap();
    }

    reporter.disconnect().unwrap();
    listener.process_events(&mut handler);

    let expected = vec![41u64, 5, 41, 0, 77];
    assert_eq!(handler.events(), &expected);
    assert!(handler.has_finished());
}

// A counting handler sees exactly one call per sent event.
#[test]
fn every_sent_event_is_handled_exactly_once() {
    let (event_sender, event_receiver) = event_channel::<MyEvent>();

    let mut reporter = ChannelReporter::new(event_sender);
    let mut listener = ChannelEventListener::new(event_receiver);
    let mut handler = CountingHandler::new();

    for i in 0..17 {
        reporter.report_event(MyEvent(i)).unwrap();
    }

    reporter.disconnect().unwrap();
    listener.process_events(&mut handler);

    assert_eq!(handler.count(), 17);
}

// The finalize step runs exactly once even when nothing was sent.
#[test]
fn finish_runs_once_with_zero_events() {
    let (event_sender, event_receiver) = event_channel::<MyEvent>();

    let reporter = ChannelReporter::new(event_sender);
    let mut listener = ChannelEventListener::new(event_receiver);
    let mut handler = RecordingHandler::new();

    reporter.disconnect().unwrap();
    listener.process_events(&mut handler);

    assert!(handler.events().is_empty());
    assert!(handler.has_finished());
}

// Sending after the receiving half is gone fails, and the error carries the
// event back to the caller unchanged.
#[test]
fn post_mortem_send_returns_the_event() {
    let (event_sender, event_receiver) = event_channel::<MyEvent>();
    drop(event_receiver);

    let mut reporter = ChannelReporter::new(event_sender);
    match reporter.report_event(MyEvent(42)) {
        Err(EventReporterError::SendError(e)) => assert_eq!(e.0, MyEvent(42)),
        Ok(()) => panic!("reporting with no receiver left should fail"),
    }
}

// The channel closes only once every sender handle - clones included - has
// been given up.
#[test]
fn channel_closes_only_after_every_sender_is_gone() {
    let (mut event_sender, mut event_receiver) = event_channel::<u64>();
    let mut second_sender = event_sender.clone();

    event_sender.send(1u64).unwrap();
    event_sender.disconnect();

    // The clone still holds the channel open.
    second_sender.send(2u64).unwrap();
    second_sender.disconnect();

    assert_eq!(event_receiver.recv(), Ok(1));
    assert_eq!(event_receiver.recv(), Ok(2));
    assert_eq!(event_receiver.recv(), Err(EventRecvError));
}

// A cloned receiver competes for the same queue: each event goes to exactly
// one of the receiving handles.
#[test]
fn cloned_receivers_compete_for_events() {
    let (mut event_sender, mut event_receiver) = event_channel::<u64>();
    let mut second_receiver = event_receiver.clone();

    event_sender.send(10u64).unwrap();
    event_sender.send(20u64).unwrap();
    event_sender.disconnect();

    assert_eq!(event_receiver.recv(), Ok(10));
    assert_eq!(second_receiver.recv(), Ok(20));
    assert_eq!(event_receiver.recv(), Err(EventRecvError));
    assert_eq!(second_receiver.recv(), Err(EventRecvError));
}

// End-of-stream is permanent: once the receiver has reported it, it keeps
// reporting it.
#[test]
fn end_of_stream_is_permanent() {
    let (mut event_sender, mut event_receiver) = event_channel::<u64>();

    event_sender.send(11u64).unwrap();
    event_sender.disconnect();

    assert_eq!(event_receiver.recv(), Ok(11));
    assert_eq!(event_receiver.recv(), Err(EventRecvError));
    assert_eq!(event_receiver.recv(), Err(EventRecvError));
}
