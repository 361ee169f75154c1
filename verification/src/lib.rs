//! Building blocks for decoupling the production of status events from their
//! consumption, with a verified shutdown handshake.
//!
//! A [`Reporter`] sends events into an unbounded FIFO channel and signals
//! end-of-stream by disconnecting.  On the other side, a
//! [`ChannelEventListener`] drains the channel through its verified
//! receive/handle loop: a caller-supplied [`EventHandler`] reacts to the
//! events in delivery order until the loop observes the disconnect, and the
//! handler's `finish` step then runs exactly once.  An embedding application
//! that wants the loop off its own thread runs it on a background thread and
//! waits for it through a [`FinishProcessing`] handle; the [`EventListener`]
//! trait is the shape of that wiring.

mod channel_reporter;
mod handler;
mod handlers;
mod listener;
mod reporter;

pub use channel_reporter::channel::event_channel;
pub use channel_reporter::channel::EventReceiver;
pub use channel_reporter::channel::EventRecvError;
pub use channel_reporter::channel::EventSendError;
pub use channel_reporter::channel::EventSender;
pub use channel_reporter::listener::ChannelEventListener;
pub use channel_reporter::reporter::ChannelReporter;
pub use channel_reporter::reporter::EventReporterError;
pub use handler::lemma_run_observations;
pub use handler::EventHandler;
pub use handlers::capped_u64;
pub use handlers::sum_of;
pub use handlers::CountingHandler;
pub use handlers::MultiHandler;
pub use handlers::PairHandler;
pub use handlers::RecordingHandler;
pub use handlers::SummingHandler;
pub use listener::EventListener;
pub use listener::FinishProcessing;
pub use reporter::Reporter;
