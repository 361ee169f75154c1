//! The consumer-side interfaces: running a handler on the event stream, and
//! waiting for that run to complete.

use crate::handler::EventHandler;
use vstd::prelude::*;

verus! {

/// A listener which receives the events sent by a
/// [`Reporter`](crate::Reporter) and acts on them by running an
/// [`EventHandler`].
///
/// `run_handler` consumes the listener: a listener owns the single receiving
/// half of its event stream, and running two handlers on it would make them
/// competing consumers.  The call starts the processing run and returns a
/// handle; completion of the run is observed only through that handle.
pub trait EventListener<H: EventHandler>: Sized {
    /// The handle used to wait for the processing run to complete.
    type FinishProcessingHandle: FinishProcessing;

    /// Start processing events with `handler`, and return the handle that
    /// observes completion.
    fn run_handler(self, handler: H) -> Self::FinishProcessingHandle;
}

/// A way to wait for an [`EventListener`]'s processing run to let its
/// [`EventHandler`] finish up on the events it received.
///
/// ### Caution: waiting forever
///
/// A processing run only completes once the matching
/// [`Reporter`](crate::Reporter) has disconnected: until then the run is
/// still waiting for further events, and `finish_processing` blocks.  If the
/// reporter is never disconnected, `finish_processing` never returns.  This
/// is a liveness precondition on the caller, not a failure the handle can
/// report.
#[must_use]
pub trait FinishProcessing: Sized {
    /// What a completed run hands back; for the channel-based listener, the
    /// handler itself, so that the caller can inspect what it observed.
    type Output;

    /// The type of error reported when the run terminated abnormally.
    type Err;

    /// Block until the processing run has terminated, that is, until the
    /// handler's finalize step has already run.
    fn finish_processing(self) -> Result<Self::Output, Self::Err>;
}

} // verus!
