// A processing run observed through a handler which registers every event
// it receives, inspected once the run is over.

use storyteller::event_channel;
use storyteller::ChannelEventListener;
use storyteller::ChannelReporter;
use storyteller::RecordingHandler;
use storyteller::Reporter;

#[derive(Clone, Debug, Eq, PartialEq)]
struct MyEvent(usize);

#[test]
fn registering_handler_test() {
    let (event_sender, event_receiver) = event_channel::<MyEvent>();

    let mut reporter = ChannelReporter::new(event_sender);
    let mut listener = ChannelEventListener::new(event_receiver);
    let mut handler = RecordingHandler::new();

    for i in 0..5 {
        reporter.report_event(MyEvent(i)).unwrap();
    }

    reporter.disconnect().unwrap();
    listener.process_events(&mut handler);

    // The comparison comes after the run is over, so every sent event has
    // been processed.
    let expected = vec![MyEvent(0), MyEvent(1), MyEvent(2), MyEvent(3), MyEvent(4)];
    assert_eq!(handler.events(), &expected);
}
