//! What holds of every loop controller, whatever it plays.

use crate::playback::place_in_pass;
use crate::playback::Playback;
use crate::source::Format;
use vstd::arithmetic::div_mod::lemma_mod_sub_multiples_vanish;
use vstd::arithmetic::div_mod::lemma_small_mod;
use vstd::prelude::*;

verus! {

/// A controller that does not repeat hands out its samples once, each in
/// its place, and `None` at every pull after the last of them.
pub proof fn lemma_plays_once<T>(samples: Seq<T>, format: Format, index: nat)
    ensures
        Playback::fresh(samples, format).output(index) == (if index < samples.len() {
            Some(samples[index as int])
        } else {
            None
        }),
{
    Playback::fresh(samples, format).lemma_output(index);
}

/// A controller that repeats over at least one sample never runs out: the
/// pull that follows `index` pulls hands out the sample at `index` modulo
/// the number of samples. So the output is the samples in order, over and
/// over, with none dropped, doubled or out of place where one pass ends and
/// the next begins.
pub proof fn lemma_repeats_in_order<T>(samples: Seq<T>, format: Format, index: nat)
    requires
        samples.len() > 0,
    ensures
        Playback::fresh(samples, format).with_repeat(true).output(index) == Some(
            samples[index as int % samples.len() as int],
        ),
        Playback::fresh(samples, format).with_repeat(true).output(index + samples.len())
            == Playback::fresh(samples, format).with_repeat(true).output(index),
{
    let looping = Playback::fresh(samples, format).with_repeat(true);
    let period: int = samples.len() as int;
    looping.lemma_output(index);
    looping.lemma_output(index + samples.len());
    if index < samples.len() {
        lemma_small_mod(index, samples.len());
    } else {
        lemma_mod_sub_multiples_vanish(index as int, period);
    }
}

/// A controller that repeats over no samples hands out `None` at every pull.
pub proof fn lemma_empty_is_silent<T>(samples: Seq<T>, format: Format, index: nat)
    requires
        samples.len() == 0,
    ensures
        Playback::fresh(samples, format).with_repeat(true).output(index) == None::<T>,
{
    Playback::fresh(samples, format).with_repeat(true).lemma_output(index);
}

/// Where the flag is set after `consumed` samples of a first pass, the
/// controller goes on with the sample at `consumed`, plays the pass to its
/// end, and then starts over with the first sample, not with the one at
/// which the flag was set.
pub proof fn lemma_repeat_set_midway<T>(
    samples: Seq<T>,
    format: Format,
    consumed: nat,
    index: nat,
)
    requires
        consumed < samples.len(),
    ensures
        Playback::fresh(samples, format).after(consumed).with_repeat(true).output(index) == Some(
            samples[(consumed + index) as int % samples.len() as int],
        ),
{
    let first = Playback::fresh(samples, format);
    let looping = first.after(consumed).with_repeat(true);
    let period: int = samples.len() as int;
    first.lemma_after(consumed);
    looping.lemma_output(index);
    if consumed + index < samples.len() {
        lemma_small_mod(consumed + index, samples.len());
    } else {
        lemma_mod_sub_multiples_vanish((consumed + index) as int, period);
    }
}

/// Where the flag is cleared after one pass or more of a controller that
/// repeats, the controller plays what is left of the pass it is in and
/// then hands out `None` at every pull: it does not start over again.
pub proof fn lemma_repeat_cleared_ends<T>(
    samples: Seq<T>,
    format: Format,
    pulls: nat,
    index: nat,
)
    requires
        samples.len() > 0,
        pulls >= samples.len(),
    ensures
        0 < place_in_pass(pulls, samples.len()) <= samples.len(),
        Playback::fresh(samples, format).with_repeat(true).after(pulls).with_repeat(false).output(
            index,
        ) == (if place_in_pass(pulls, samples.len()) + index < samples.len() {
            Some(samples[place_in_pass(pulls, samples.len()) + index])
        } else {
            None
        }),
{
    let looping = Playback::fresh(samples, format).with_repeat(true);
    let stopped = looping.after(pulls).with_repeat(false);
    let period: int = samples.len() as int;
    looping.lemma_after(pulls);
    stopped.lemma_output(index);
    if pulls == samples.len() {
        lemma_small_mod((pulls - 1) as nat, samples.len());
    } else {
        lemma_mod_sub_multiples_vanish(pulls - 1, period);
    }
}

/// Where both cursors of a controller report one format, no number of
/// pulls changes the format that the controller reports, whether or not a
/// pull among them goes back to the beginning.
pub proof fn lemma_format_is_stable<T>(state: Playback<T>, pulls: nat)
    requires
        state.uniform(),
    ensures
        state.after(pulls).uniform(),
        state.after(pulls).current.format == state.current.format,
    decreases pulls,
{
    if pulls > 0 {
        lemma_format_is_stable(state.advanced(), (pulls - 1) as nat);
    }
}

} // verus!
