//! The loop controller: a stream that, at the end of its samples, either
//! stops or starts over, as a flag says that can be set at any time.

use crate::buffered::buffered;
use crate::buffered::Buffered;
use crate::playback::Playback;
use crate::source::Source;
use std::time::Duration;
use vstd::prelude::*;

verus! {

/// Wraps `source` in a loop controller. Nothing is drawn from `source` yet:
/// the beginning and the handle that pulls read are duplicates of one
/// handle in front of its first sample. The controller does not repeat.
pub fn repeatable<I>(source: I) -> (controller: Repeatable<I>) where I: Source
    ensures
        controller@ == Playback::fresh(source.remaining(), source.format()),
        controller.current() == controller.start(),
{
    let source = buffered(source);
    Repeatable { current: source.clone(), start: source, repeat: false }
}

/// A stream that can start over when it runs out of samples.
///
/// Every pull takes the controller by `&mut`, so one owner at a time drives
/// it; whether it can move to another thread follows from its parts.
///
/// A controller that is given up with [`Repeatable::release`] frees the
/// recording behind its handles, if no other handle is left over it; one
/// that is merely dropped leaves it allocated.
#[verifier::reject_recursive_types(I)]
pub struct Repeatable<I> where I: Source {
    start: Buffered<I>,
    current: Buffered<I>,
    repeat: bool,
}

impl<I> View for Repeatable<I> where I: Source {
    type V = Playback<I::Item>;

    open spec fn view(&self) -> Playback<I::Item> {
        Playback { start: self.start()@, current: self.current()@, repeat: self.repeats() }
    }
}

impl<I> Clone for Repeatable<I> where I: Source {
    /// A second controller in the same state, over the same recording.
    fn clone(&self) -> (controller: Self)
        ensures
            controller == *self,
    {
        Repeatable {
            start: self.start.clone(),
            current: self.current.clone(),
            repeat: self.repeat,
        }
    }
}

impl<I> Repeatable<I> where I: Source {
    /// The handle that marks the beginning of the stream.
    pub closed spec fn start(&self) -> Buffered<I> {
        self.start
    }

    /// The handle that pulls read.
    pub closed spec fn current(&self) -> Buffered<I> {
        self.current
    }

    /// The repeat flag.
    pub closed spec fn repeats(&self) -> bool {
        self.repeat
    }

    /// Sets the repeat flag. The position stays where it is.
    pub fn set_repeat(&mut self, value: bool)
        ensures
            final(self)@ == old(self)@.with_repeat(value),
            final(self).repeats() == value,
            final(self).start() == old(self).start(),
            final(self).current() == old(self).current(),
    {
        self.repeat = value;
    }

    /// The handle that pulls read.
    pub fn inner(&self) -> (handle: &Buffered<I>)
        ensures
            *handle == self.current(),
    {
        &self.current
    }

    /// The handle that pulls read, to be moved or replaced by the caller.
    /// The beginning and the flag stay as they are.
    pub fn inner_mut(&mut self) -> (handle: &mut Buffered<I>)
        ensures
            *handle == old(self).current(),
            final(self).current() == *final(handle),
            final(self).start() == old(self).start(),
            final(self).repeats() == old(self).repeats(),
    {
        &mut self.current
    }

    /// Gives up the controller for the handle that pulls read. The handle
    /// that marks the beginning is released.
    pub fn into_inner(self) -> (handle: Buffered<I>)
        ensures
            handle == self.current(),
    {
        self.start.release();
        self.current
    }

    /// Gives up the controller and releases both of its handles.
    pub fn release(self) {
        self.start.release();
        self.current.release();
    }

    /// Hands out the next sample. At the end of the stream, a controller
    /// that repeats puts a duplicate of the beginning in the place of the
    /// spent handle and hands out the first sample, if there is one; a
    /// controller that does not repeat hands out `None` and stays as it is.
    /// No pull goes back to the beginning more than once.
    pub fn next(&mut self) -> (sample: Option<I::Item>)
        ensures
            sample == old(self)@.emitted(),
            final(self)@ == old(self)@.advanced(),
            final(self).start() == old(self).start(),
            final(self).repeats() == old(self).repeats(),
            !old(self)@.repeat && sample is None ==> *final(self) == *old(self),
            old(self)@.uniform() ==> final(self)@.current.format == old(self)@.current.format,
    {
        let current = self.current.next();
        if self.repeat && current.is_none() {
            let mut handle = self.start.clone();
            core::mem::swap(&mut self.current, &mut handle);
            // `handle` is the spent one now.
            handle.release();
            return self.current.next();
        }
        current
    }

    /// The size hint of the handle that pulls read. It speaks of the
    /// current pass, not of the repetitions.
    pub fn size_hint(&self) -> (hint: (usize, Option<usize>))
        ensures
            hint == self.current().size_bounds(),
    {
        self.current.size_hint()
    }

    /// The frame length that the handle that pulls read reports.
    pub fn current_frame_len(&self) -> (len: Option<usize>)
        ensures
            len == self.current().frame_len(),
    {
        self.current.current_frame_len()
    }

    /// The channel count that the handle that pulls read reports.
    pub fn channels(&self) -> (channels: u16)
        ensures
            channels == self@.current.format.channels,
    {
        self.current.channels()
    }

    /// The sample rate that the handle that pulls read reports.
    pub fn sample_rate(&self) -> (rate: u32)
        ensures
            rate == self@.current.format.sample_rate,
    {
        self.current.sample_rate()
    }

    /// The total duration that the handle that pulls read reports: that of
    /// one pass, whether or not the controller repeats.
    pub fn total_duration(&self) -> (duration: Option<Duration>)
        ensures
            duration == self@.current.format.total_duration,
    {
        self.current.total_duration()
    }
}

} // verus!
