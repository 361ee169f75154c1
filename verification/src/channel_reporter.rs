//! The channel-based implementation of the pipeline: an unbounded event
//! channel, a reporter that owns its sending half, and a listener that
//! drains its receiving half through a verified receive/handle loop.

pub mod channel;
pub mod listener;
pub mod reporter;
