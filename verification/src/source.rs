//! The sample stream capability: a finite, lazily produced run of samples
//! together with the format it is played in.

use std::time::Duration;
use vstd::prelude::*;

verus! {

/// What stays the same about a stream for as long as it lives.
#[derive(Clone, Copy)]
pub struct Format {
    /// How many channels the samples are interleaved for.
    pub channels: u16,
    /// Samples per second and channel.
    pub sample_rate: u32,
    /// How long the whole stream plays, where that is known.
    pub total_duration: Option<Duration>,
}

/// The sample that a stream holding `pending` hands out next, if any.
pub open spec fn head<T>(pending: Seq<T>) -> Option<T> {
    if pending.len() > 0 {
        Some(pending[0])
    } else {
        None
    }
}

/// What a stream holding `pending` still holds once it was asked for a sample.
pub open spec fn tail<T>(pending: Seq<T>) -> Seq<T> {
    if pending.len() > 0 {
        pending.skip(1)
    } else {
        pending
    }
}

/// A finite stream of samples.
///
/// The four spec functions say what a stream is to the contracts of this
/// library. A type whose impl is verified defines them, and is held to the
/// contracts below; a type whose impl is not verified leaves them as they
/// are and answers for the contracts itself.
pub trait Source {
    /// The type of a sample.
    type Item: Copy;

    /// The samples still to come, in the order in which `next` hands them out.
    open spec fn remaining(&self) -> Seq<Self::Item> {
        arbitrary()
    }

    /// Channel count, sample rate and total duration.
    open spec fn format(&self) -> Format {
        arbitrary()
    }

    /// How many samples are left in the current frame, where that is known.
    open spec fn frame_len(&self) -> Option<usize> {
        arbitrary()
    }

    /// Lower and upper bound on the number of samples still to come.
    open spec fn size_bounds(&self) -> (usize, Option<usize>) {
        arbitrary()
    }

    /// Hands out the next sample, or `None` once the stream is exhausted.
    /// An exhausted stream stays exhausted, and the format never changes.
    fn next(&mut self) -> (sample: Option<Self::Item>)
        ensures
            sample == head(old(self).remaining()),
            final(self).remaining() == tail(old(self).remaining()),
            final(self).format() == old(self).format(),
    ;

    /// Bounds on the number of samples still to come.
    fn size_hint(&self) -> (hint: (usize, Option<usize>))
        ensures
            hint == self.size_bounds(),
            hint.0 <= self.remaining().len(),
            hint.1 matches Some(upper) ==> self.remaining().len() <= upper,
    ;

    /// How many samples are left in the current frame, where that is known.
    fn current_frame_len(&self) -> (len: Option<usize>)
        ensures
            len == self.frame_len(),
    ;

    /// The channel count.
    fn channels(&self) -> (channels: u16)
        ensures
            channels == self.format().channels,
    ;

    /// The sample rate.
    fn sample_rate(&self) -> (rate: u32)
        ensures
            rate == self.format().sample_rate,
    ;

    /// How long the whole stream plays, where that is known.
    fn total_duration(&self) -> (duration: Option<Duration>)
        ensures
            duration == self.format().total_duration,
    ;
}

} // verus!
