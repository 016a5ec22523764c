//! Playback-side logic: the playback queue, the preload cache bookkeeping and
//! the audio pipeline's buffers.

pub mod pipeline;
pub mod preload;
pub mod queue;
