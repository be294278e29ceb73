//! A stream over samples that are already in memory.

use crate::source::Format;
use crate::source::Source;
use std::time::Duration;
use vstd::prelude::*;

verus! {

/// A stream over samples that are already in memory.
pub struct SamplesBuffer<T> {
    data: Vec<T>,
    position: usize,
    format: Format,
}

impl<T> SamplesBuffer<T> {
    #[verifier::type_invariant]
    spec fn in_range(&self) -> bool {
        self.position <= self.data.len()
    }
}

impl<T: Copy> SamplesBuffer<T> {
    /// A stream that hands out `data` from its first sample on and reports
    /// `format`.
    pub fn new(format: Format, data: Vec<T>) -> (buffer: Self)
        ensures
            buffer.remaining() == data@,
            buffer.format() == format,
    {
        SamplesBuffer { data, position: 0, format }
    }
}

impl<T: Copy> Source for SamplesBuffer<T> {
    type Item = T;

    closed spec fn remaining(&self) -> Seq<T> {
        self.data@.skip(self.position as int)
    }

    closed spec fn format(&self) -> Format {
        self.format
    }

    open spec fn frame_len(&self) -> Option<usize> {
        None
    }

    open spec fn size_bounds(&self) -> (usize, Option<usize>) {
        (self.remaining().len() as usize, Some(self.remaining().len() as usize))
    }

    fn next(&mut self) -> (sample: Option<T>) {
        proof {
            use_type_invariant(&*self);
        }
        if self.position < self.data.len() {
            let sample = self.data[self.position];
            self.position = self.position + 1;
            Some(sample)
        } else {
            None
        }
    }

    fn size_hint(&self) -> (hint: (usize, Option<usize>)) {
        proof {
            use_type_invariant(self);
        }
        let left = self.data.len() - self.position;
        (left, Some(left))
    }

    fn current_frame_len(&self) -> (len: Option<usize>) {
        None
    }

    fn channels(&self) -> (channels: u16) {
        self.format.channels
    }

    fn sample_rate(&self) -> (rate: u32) {
        self.format.sample_rate
    }

    fn total_duration(&self) -> (duration: Option<Duration>) {
        self.format.total_duration
    }
}

} // verus!
