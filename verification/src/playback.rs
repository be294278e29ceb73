//! The loop controller as a mathematical object: a cursor that marks the
//! beginning, a cursor that is read, and the repeat flag.

use crate::buffered::Cursor;
use crate::source::head;
use crate::source::Format;
use vstd::arithmetic::div_mod::lemma_fundamental_div_mod;
use vstd::arithmetic::div_mod::lemma_fundamental_div_mod_converse;
use vstd::arithmetic::div_mod::lemma_mod_sub_multiples_vanish;
use vstd::arithmetic::div_mod::lemma_small_mod;
use vstd::prelude::*;

verus! {

/// How many samples of a pass of `period` samples a controller that repeats
/// has handed out after `pulls` pulls that began where a pass began: from 1
/// to `period`, since it goes back to the beginning only with the pull
/// after the last sample.
pub open spec fn place_in_pass(pulls: nat, period: nat) -> int
    recommends
        pulls > 0,
        period > 0,
{
    (pulls - 1) % (period as int) + 1
}

/// The state of a loop controller.
pub struct Playback<T> {
    /// The beginning of the stream. No pull moves it.
    pub start: Cursor<T>,
    /// The cursor that pulls read and move.
    pub current: Cursor<T>,
    /// Whether a pull at the end of the stream goes back to the beginning.
    pub repeat: bool,
}

impl<T> Playback<T> {
    /// A controller over `samples` that has handed out nothing yet and does
    /// not repeat.
    pub open spec fn fresh(samples: Seq<T>, format: Format) -> Self {
        Playback {
            start: Cursor::at_start(samples, format),
            current: Cursor::at_start(samples, format),
            repeat: false,
        }
    }

    /// The same state with the repeat flag set to `value`.
    pub open spec fn with_repeat(self, value: bool) -> Self {
        Playback { repeat: value, ..self }
    }

    /// Whether the next pull goes back to the beginning: the current cursor
    /// is exhausted and the flag is set.
    pub open spec fn rewinds(self) -> bool {
        self.repeat && self.current.remaining().len() == 0
    }

    /// The cursor that the next pull reads: a duplicate of the beginning
    /// where the pull rewinds, the current cursor where it does not.
    pub open spec fn reading(self) -> Cursor<T> {
        if self.rewinds() {
            self.start
        } else {
            self.current
        }
    }

    /// What the next pull hands out.
    pub open spec fn emitted(self) -> Option<T> {
        head(self.reading().remaining())
    }

    /// The state after the next pull.
    pub open spec fn advanced(self) -> Self {
        Playback { current: self.reading().advanced(), ..self }
    }

    /// The state after `pulls` pulls.
    pub open spec fn after(self, pulls: nat) -> Self
        decreases pulls,
    {
        if pulls == 0 {
            self
        } else {
            self.advanced().after((pulls - 1) as nat)
        }
    }

    /// What the pull that follows `index` pulls hands out.
    pub open spec fn output(self, index: nat) -> Option<T> {
        self.after(index).emitted()
    }

    /// Whether both cursors report one format.
    pub open spec fn uniform(self) -> bool {
        self.current.format == self.start.format
    }

    /// What is left of the current pass after `pulls` pulls: the pulls first
    /// use up what was left before them; those that follow go round the
    /// pass from the beginning, where the controller repeats.
    pub open spec fn left_after(self, pulls: nat) -> Seq<T> {
        let pending = self.current.remaining();
        let pass = self.start.remaining();
        if pulls <= pending.len() {
            pending.skip(pulls as int)
        } else if self.repeat && pass.len() > 0 {
            pass.skip(place_in_pass((pulls - pending.len()) as nat, pass.len()))
        } else {
            Seq::empty()
        }
    }

    /// What the pull that follows `index` pulls hands out, without
    /// going through the pulls one by one: first what was left of the
    /// current pass, then, where the controller repeats, the pass over and
    /// over.
    pub open spec fn replayed(self, index: nat) -> Option<T> {
        let pending = self.current.remaining();
        let pass = self.start.remaining();
        if index < pending.len() {
            Some(pending[index as int])
        } else if self.repeat && pass.len() > 0 {
            Some(pass[(index - pending.len()) % (pass.len() as int)])
        } else {
            None
        }
    }

    /// Pulls move neither the beginning nor the flag, and leave of the
    /// current pass what `left_after` says.
    pub proof fn lemma_after(self, pulls: nat)
        ensures
            self.after(pulls).start == self.start,
            self.after(pulls).repeat == self.repeat,
            self.after(pulls).current.remaining() == self.left_after(pulls),
        decreases pulls,
    {
        let pass = self.start.remaining();
        if pulls > 0 {
            let fewer = (pulls - 1) as nat;
            self.advanced().lemma_after(fewer);
            if self.rewinds() && pass.len() > 0 {
                if fewer < pass.len() {
                    lemma_small_mod(fewer, pass.len());
                } else {
                    lemma_mod_sub_multiples_vanish(fewer as int, pass.len() as int);
                }
            }
        }
    }

    /// Pulled one by one, the controller hands out what `replayed` says.
    pub proof fn lemma_output(self, index: nat)
        ensures
            self.output(index) == self.replayed(index),
    {
        let pending = self.current.remaining();
        let pass = self.start.remaining();
        self.lemma_after(index);
        if index > pending.len() && self.repeat && pass.len() > 0 {
            lemma_place_is_index((index - pending.len()) as nat, pass.len());
        }
    }
}

/// The place in the pass goes by the number of pulls modulo the period,
/// but for the end of the pass, where that number is a multiple of it.
proof fn lemma_place_is_index(pulls: nat, period: nat)
    requires
        pulls > 0,
        period > 0,
    ensures
        0 < place_in_pass(pulls, period) <= period,
        place_in_pass(pulls, period) < period ==> pulls as int % period as int == place_in_pass(
            pulls,
            period,
        ),
        place_in_pass(pulls, period) == period ==> pulls as int % period as int == 0,
{
    let before: int = pulls - 1;
    let size: int = period as int;
    lemma_fundamental_div_mod(before, size);
    let rounds: int = before / size;
    let rest: int = before % size;
    if rest + 1 < size {
        lemma_fundamental_div_mod_converse(pulls as int, size, rounds, rest + 1);
    } else {
        assert(pulls == size * (rounds + 1) + 0) by (nonlinear_arith)
            requires
                pulls == size * rounds + (rest + 1),
                rest + 1 == size,
        ;
        lemma_fundamental_div_mod_converse(pulls as int, size, rounds + 1, 0);
    }
}

} // verus!
