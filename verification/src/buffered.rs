//! A restartable buffer: it records the samples of a stream as they are
//! drawn, so that any number of handles can replay them, each from its own
//! position, without drawing them from the stream twice.

use crate::source::Format;
use crate::source::Source;
use std::sync::Arc;
use std::time::Duration;
use vstd::prelude::*;
use vstd::rwlock::RwLock;
use vstd::rwlock::RwLockPredicate;

verus! {

/// What a handle stands for: the samples of the stream it reads, how many of
/// them it has handed out, and the format it reports.
pub struct Cursor<T> {
    /// Everything that the stream held when it was wrapped.
    pub samples: Seq<T>,
    /// How many of the samples the handle has handed out.
    pub position: nat,
    /// The format that the stream reported when it was wrapped.
    pub format: Format,
}

impl<T> Cursor<T> {
    /// A cursor in front of the first of `samples`.
    pub open spec fn at_start(samples: Seq<T>, format: Format) -> Self {
        Cursor { samples, position: 0, format }
    }

    /// The samples from the position on.
    pub open spec fn remaining(self) -> Seq<T> {
        if self.position <= self.samples.len() {
            self.samples.skip(self.position as int)
        } else {
            Seq::empty()
        }
    }

    /// The cursor after one pull: one sample further, unless none is left.
    pub open spec fn advanced(self) -> Self {
        if self.position < self.samples.len() {
            Cursor { position: self.position + 1, ..self }
        } else {
            self
        }
    }
}

/// What the handles of one buffer share: the wrapped stream, for as long as
/// it has samples left, and the samples drawn from it so far.
struct Recording<I: Source> {
    origin: Option<I>,
    log: Vec<I::Item>,
}

/// The samples that a stream held when it was wrapped. Every state of the
/// recording agrees with them.
struct Script<T> {
    samples: Seq<T>,
}

impl<I: Source> RwLockPredicate<Recording<I>> for Script<I::Item> {
    closed spec fn inv(self, recording: Recording<I>) -> bool {
        &&& recording.log.len() <= self.samples.len()
        &&& recording.log@ == self.samples.take(recording.log.len() as int)
        &&& match recording.origin {
            Some(origin) => origin.remaining() == self.samples.skip(recording.log.len() as int),
            None => recording.log.len() == self.samples.len(),
        }
    }
}

impl<I: Source> Recording<I> {
    /// Draws from the wrapped stream until the sample at `index` is on
    /// record, or the stream is exhausted.
    fn draw_through(&mut self, index: usize, Ghost(script): Ghost<Script<I::Item>>)
        requires
            script.inv(*old(self)),
        ensures
            script.inv(*final(self)),
            index < final(self).log.len() || final(self).log.len() == script.samples.len(),
    {
        while self.log.len() <= index && self.origin.is_some()
            invariant
                script.inv(*self),
            decreases script.samples.len() - self.log.len(), self.origin.is_some() as int,
        {
            let mut origin = self.origin.take().unwrap();
            match origin.next() {
                Some(sample) => {
                    self.log.push(sample);
                    self.origin = Some(origin);
                    assert(self.log@ =~= script.samples.take(self.log.len() as int));
                    assert(origin.remaining() =~= script.samples.skip(self.log.len() as int));
                },
                None => {},
            }
        }
    }
}

/// `Arc::into_inner`: the value behind `shared` where `shared` is the only
/// strong pointer to it, `None` where there is another. Which of the two it
/// is depends on who else holds a pointer, and is not stated.
#[verifier::external_body]
fn into_sole<T>(shared: Arc<T>) -> (inner: Option<T>)
    ensures
        inner matches Some(value) ==> value == shared,
{
    Arc::into_inner(shared)
}

/// A handle on a buffered stream: a read position over the shared recording.
///
/// Cloning a handle copies the position and shares the recording. The
/// recording sits behind a lock, which a pull holds while it reads a
/// recorded sample or draws a new one from the wrapped stream.
///
/// The lock does not free what it holds when it is dropped. A handle that
/// is given up with [`Buffered::release`] frees the recording if it is the
/// last one; a handle that is merely dropped as the last one leaves the
/// recording allocated.
#[verifier::reject_recursive_types(I)]
pub struct Buffered<I: Source> {
    shared: Arc<RwLock<Recording<I>, Script<I::Item>>>,
    position: usize,
    format: Format,
}

/// Wraps `source`. Nothing is drawn from it yet: the handle stands in front
/// of the first sample that `source` has left, and reports its format.
pub fn buffered<I: Source>(source: I) -> (handle: Buffered<I>)
    ensures
        handle@ == Cursor::at_start(source.remaining(), source.format()),
{
    let format = Format {
        channels: source.channels(),
        sample_rate: source.sample_rate(),
        total_duration: source.total_duration(),
    };
    let ghost script = Script { samples: source.remaining() };
    let recording = Recording { origin: Some(source), log: Vec::new() };
    proof {
        assert(recording.log@ =~= script.samples.take(0));
        assert(script.samples.skip(0) =~= script.samples);
    }
    Buffered { shared: Arc::new(RwLock::new(recording, Ghost(script))), position: 0, format }
}

impl<I: Source> Buffered<I> {
    #[verifier::type_invariant]
    spec fn in_range(&self) -> bool {
        self.position <= self.shared.pred().samples.len()
    }

    /// Gives up the handle. The last handle over a recording takes it out
    /// of the lock, so that the samples on record and the wrapped stream,
    /// if it still is there, are freed.
    pub fn release(self) {
        match into_sole(self.shared) {
            Some(lock) => {
                let _ = lock.into_inner();
            },
            None => {},
        }
    }
}

impl<I: Source> View for Buffered<I> {
    type V = Cursor<I::Item>;

    closed spec fn view(&self) -> Cursor<I::Item> {
        Cursor {
            samples: self.shared.pred().samples,
            position: self.position as nat,
            format: self.format,
        }
    }
}

impl<I: Source> Clone for Buffered<I> {
    /// A second handle at the same position, over the same recording.
    fn clone(&self) -> (handle: Self)
        ensures
            handle == *self,
    {
        proof {
            use_type_invariant(self);
        }
        Buffered { shared: self.shared.clone(), position: self.position, format: self.format }
    }
}

impl<I: Source> Source for Buffered<I> {
    type Item = I::Item;

    open spec fn remaining(&self) -> Seq<I::Item> {
        self@.remaining()
    }

    open spec fn format(&self) -> Format {
        self@.format
    }

    open spec fn frame_len(&self) -> Option<usize> {
        None
    }

    open spec fn size_bounds(&self) -> (usize, Option<usize>) {
        (0, None)
    }

    /// Hands out the sample at the position and moves past it. At the end
    /// of the stream the handle stays as it is.
    fn next(&mut self) -> (sample: Option<I::Item>)
        ensures
            final(self)@ == old(self)@.advanced(),
            sample is None ==> *final(self) == *old(self),
    {
        proof {
            use_type_invariant(&*self);
        }
        let (mut recording, guard) = self.shared.acquire_write();
        recording.draw_through(self.position, Ghost(self.shared.pred()));
        let sample = if self.position < recording.log.len() {
            let sample = recording.log[self.position];
            self.position = self.position + 1;
            Some(sample)
        } else {
            None
        };
        guard.release_write(recording);
        sample
    }

    fn size_hint(&self) -> (hint: (usize, Option<usize>)) {
        (0, None)
    }

    fn current_frame_len(&self) -> (len: Option<usize>) {
        None
    }

    fn channels(&self) -> (channels: u16) {
        self.format.channels
    }

    fn sample_rate(&self) -> (rate: u32) {
        self.format.sample_rate
    }

    fn total_duration(&self) -> (duration: Option<Duration>) {
        self.format.total_duration
    }
}

} // verus!
