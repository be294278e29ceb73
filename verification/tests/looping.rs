use replay::buffer::SamplesBuffer;
use replay::repeatable::repeatable;
use replay::repeatable::Repeatable;
use replay::source::Format;
use replay::source::Source;
use std::time::Duration;

fn cd_quality() -> Format {
    Format { channels: 2, sample_rate: 44100, total_duration: None }
}

fn controller(samples: Vec<i16>, repeat: bool) -> Repeatable<SamplesBuffer<i16>> {
    let mut controller = repeatable(SamplesBuffer::new(cd_quality(), samples));
    controller.set_repeat(repeat);
    controller
}

fn pull(controller: &mut Repeatable<SamplesBuffer<i16>>, count: usize) -> Vec<Option<i16>> {
    let mut out = Vec::new();
    for _ in 0..count {
        out.push(controller.next());
    }
    out
}

#[test]
fn three_samples_repeat_forever() {
    let mut looping = controller(vec![1, 2, 3], true);
    assert_eq!(
        pull(&mut looping, 8),
        vec![Some(1), Some(2), Some(3), Some(1), Some(2), Some(3), Some(1), Some(2)]
    );
}

#[test]
fn three_samples_without_repeat_end() {
    let mut once = controller(vec![1, 2, 3], false);
    assert_eq!(pull(&mut once, 5), vec![Some(1), Some(2), Some(3), None, None]);
}

#[test]
fn empty_source_with_repeat_yields_nothing() {
    let mut silent = controller(vec![], true);
    assert_eq!(pull(&mut silent, 6), vec![None; 6]);
}

#[test]
fn empty_source_without_repeat_yields_nothing() {
    let mut silent = controller(vec![], false);
    assert_eq!(pull(&mut silent, 3), vec![None; 3]);
}

#[test]
fn a_fresh_controller_does_not_repeat() {
    let mut fresh = repeatable(SamplesBuffer::new(cd_quality(), vec![7i16, 8]));
    assert_eq!(fresh.next(), Some(7));
    assert_eq!(fresh.next(), Some(8));
    assert_eq!(fresh.next(), None);
    assert_eq!(fresh.next(), None);
}

#[test]
fn single_pass_hands_out_every_sample_once() {
    let samples: Vec<i16> = (0..100).map(|i| (i * 3 - 50) as i16).collect();
    let mut once = controller(samples.clone(), false);
    for expected in &samples {
        assert_eq!(once.next(), Some(*expected));
    }
    for _ in 0..50 {
        assert_eq!(once.next(), None);
    }
}

#[test]
fn every_period_equals_the_samples() {
    let samples: Vec<i16> = vec![10, -20, 30, -40, 50];
    let mut looping = controller(samples.clone(), true);
    for index in 0..(samples.len() * 7 + 3) {
        assert_eq!(looping.next(), Some(samples[index % samples.len()]));
    }
}

#[test]
fn one_sample_repeats() {
    let mut looping = controller(vec![42], true);
    assert_eq!(pull(&mut looping, 4), vec![Some(42); 4]);
}

#[test]
fn repeat_set_midway_restarts_from_the_first_sample() {
    let mut looping = controller(vec![1, 2, 3, 4, 5], false);
    assert_eq!(pull(&mut looping, 2), vec![Some(1), Some(2)]);
    looping.set_repeat(true);
    assert_eq!(
        pull(&mut looping, 9),
        vec![Some(3), Some(4), Some(5), Some(1), Some(2), Some(3), Some(4), Some(5), Some(1)]
    );
}

#[test]
fn repeat_cleared_after_a_loop_ends_with_the_pass() {
    let mut looping = controller(vec![1, 2, 3], true);
    assert_eq!(
        pull(&mut looping, 5),
        vec![Some(1), Some(2), Some(3), Some(1), Some(2)]
    );
    looping.set_repeat(false);
    assert_eq!(pull(&mut looping, 4), vec![Some(3), None, None, None]);
}

#[test]
fn repeat_cleared_at_the_end_of_a_pass_ends_at_once() {
    let mut looping = controller(vec![1, 2, 3], true);
    assert_eq!(pull(&mut looping, 3), vec![Some(1), Some(2), Some(3)]);
    looping.set_repeat(false);
    assert_eq!(pull(&mut looping, 3), vec![None, None, None]);
}

#[test]
fn repeat_set_after_the_end_starts_over() {
    let mut looping = controller(vec![1, 2], false);
    assert_eq!(pull(&mut looping, 4), vec![Some(1), Some(2), None, None]);
    looping.set_repeat(true);
    assert_eq!(pull(&mut looping, 3), vec![Some(1), Some(2), Some(1)]);
}

#[test]
fn format_is_the_same_before_and_after_a_reset() {
    let format = Format {
        channels: 6,
        sample_rate: 48000,
        total_duration: Some(Duration::from_millis(1500)),
    };
    let mut looping = repeatable(SamplesBuffer::new(format, vec![1i16, 2, 3]));
    looping.set_repeat(true);
    for _ in 0..10 {
        assert_eq!(looping.channels(), 6);
        assert_eq!(looping.sample_rate(), 48000);
        assert_eq!(looping.total_duration(), Some(Duration::from_millis(1500)));
        assert!(looping.next().is_some());
    }
}

#[test]
fn hints_are_those_of_the_current_handle() {
    let mut looping = controller(vec![1, 2, 3], true);
    assert_eq!(looping.size_hint(), looping.inner().size_hint());
    assert_eq!(looping.size_hint(), (0, None));
    assert_eq!(looping.current_frame_len(), None);
    assert_eq!(looping.total_duration(), None);
    looping.next();
    assert_eq!(looping.size_hint(), (0, None));
    assert_eq!(looping.current_frame_len(), looping.inner().current_frame_len());
}

#[test]
fn inner_reads_the_current_handle() {
    let mut looping = controller(vec![1, 2, 3], false);
    looping.next();
    let mut copy = looping.inner().clone();
    assert_eq!(copy.next(), Some(2));
    assert_eq!(copy.next(), Some(3));
    assert_eq!(copy.next(), None);
    assert_eq!(looping.next(), Some(2));
}

#[test]
fn inner_mut_moves_the_current_handle() {
    let mut looping = controller(vec![1, 2, 3], true);
    assert_eq!(looping.inner_mut().next(), Some(1));
    assert_eq!(looping.inner_mut().next(), Some(2));
    assert_eq!(looping.next(), Some(3));
    assert_eq!(looping.inner_mut().next(), None);
    assert_eq!(looping.next(), Some(1));
}

#[test]
fn a_replaced_handle_is_played_out_before_the_beginning_returns() {
    let mut looping = controller(vec![1, 2, 3], true);
    let other = repeatable(SamplesBuffer::new(cd_quality(), vec![8i16, 9])).into_inner();
    *looping.inner_mut() = other;
    assert_eq!(
        pull(&mut looping, 6),
        vec![Some(8), Some(9), Some(1), Some(2), Some(3), Some(1)]
    );
}

#[test]
fn into_inner_gives_the_current_handle() {
    let mut looping = controller(vec![1, 2, 3], true);
    looping.next();
    let mut rest = looping.into_inner();
    assert_eq!(rest.next(), Some(2));
    assert_eq!(rest.next(), Some(3));
    assert_eq!(rest.next(), None);
    assert_eq!(rest.next(), None);
}

#[test]
fn a_clone_goes_its_own_way() {
    let mut looping = controller(vec![1, 2, 3], true);
    looping.next();
    let mut copy = looping.clone();
    copy.set_repeat(false);
    assert_eq!(pull(&mut copy, 3), vec![Some(2), Some(3), None]);
    assert_eq!(pull(&mut looping, 3), vec![Some(2), Some(3), Some(1)]);
}

#[test]
fn float_samples_loop_too() {
    let mut looping = repeatable(SamplesBuffer::new(cd_quality(), vec![0.5f32, -0.25]));
    looping.set_repeat(true);
    assert_eq!(looping.next(), Some(0.5));
    assert_eq!(looping.next(), Some(-0.25));
    assert_eq!(looping.next(), Some(0.5));
}

fn moves_between_threads<T: Send>(_value: &T) {}

#[test]
fn a_controller_can_be_handed_to_another_owner() {
    let looping = controller(vec![1, 2, 3], true);
    moves_between_threads(&looping);
}
