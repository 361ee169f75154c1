// Composite handlers: every event reaches every sub-handler, in order.

use storyteller::event_channel;
use storyteller::ChannelEventListener;
use storyteller::ChannelReporter;
use storyteller::CountingHandler;
use storyteller::MultiHandler;
use storyteller::PairHandler;
use storyteller::RecordingHandler;
use storyteller::Reporter;
use storyteller::SummingHandler;

#[test]
fn multi_handler_test() {
    let (event_sender, event_receiver) = event_channel::<u64>();

    let mut reporter = ChannelReporter::new(event_sender);
    let mut listener = ChannelEventListener::new(event_receiver);

    let counter = CountingHandler::new();
    let summer = SummingHandler::new();
    let mut handler = PairHandler::new(counter, summer);

    for i in 0..5u64 {
        reporter.report_event(i).unwrap();
    }

    reporter.disconnect().unwrap();
    listener.process_events(&mut handler);

    // The assertions come after the run is over, so every sent event has
    // been processed.
    assert_eq!(handler.first.count(), 5);
    assert_eq!(handler.second.total(), 10);
}

#[test]
fn multi_handler_forwards_to_each_in_order() {
    let (event_sender, event_receiver) = event_channel::<u64>();

    let mut reporter = ChannelReporter::new(event_sender);
    let mut listener = ChannelEventListener::new(event_receiver);

    let mut handler = MultiHandler::new();
    handler.add_handler(RecordingHandler::new());
    handler.add_handler(RecordingHandler::new());

    for i in [7u64, 3, 9] {
        reporter.report_event(i).unwrap();
    }

    reporter.disconnect().unwrap();
    listener.process_events(&mut handler);

    let subs = handler.handlers();
    assert_eq!(subs.len(), 2);
    let expected = vec![7u64, 3, 9];
    assert_eq!(subs[0].events(), &expected);
    assert_eq!(subs[1].events(), &expected);
    assert!(subs[0].has_finished());
    assert!(subs[1].has_finished());
}

#[test]
fn summing_handler_saturates_instead_of_overflowing() {
    let (event_sender, event_receiver) = event_channel::<u64>();

    let mut reporter = ChannelReporter::new(event_sender);
    let mut listener = ChannelEventListener::new(event_receiver);
    let mut handler = SummingHandler::new();

    reporter.report_event(u64::MAX).unwrap();
    reporter.report_event(5u64).unwrap();

    reporter.disconnect().unwrap();
    listener.process_events(&mut handler);

    assert_eq!(handler.total(), u64::MAX);
}
