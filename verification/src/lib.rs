//! Looping playback over finite sample streams.
//!
//! A [`repeatable::Repeatable`] plays a stream once or over and over, as a
//! flag says that can be set while it plays. It reads the stream through a
//! [`buffered::Buffered`] handle, which records the samples as they are
//! drawn, so that a later pass replays them without asking the stream
//! again. What a controller hands out, pull by pull, is stated over
//! [`playback::Playback`] and proved in [`laws`].

pub mod buffer;
pub mod buffered;
pub mod laws;
pub mod playback;
pub mod repeatable;
pub mod source;
