use shooter_core::clip::{Clip, Signal, SPEED_UNIT};

fn signal(id: u128, time: u64) -> Signal {
    Signal { id, name: String::from("mark"), time }
}

#[test]
fn new_clip_is_looped_enabled_and_at_its_start() {
    let clip = Clip::new(1_000_000);
    assert_eq!(clip.length(), 1_000_000);
    assert_eq!(clip.time_position(), 0);
    assert!(clip.is_loop());
    assert!(clip.is_enabled());
    assert_eq!(clip.speed(), SPEED_UNIT);
    assert!(!clip.has_ended());
}

#[test]
fn a_frame_moves_a_clip_by_time_times_speed() {
    let mut clip = Clip::new(1_000_000);
    clip.advance(100);
    assert_eq!(clip.time_position(), 100_000);
    clip.set_speed(3000);
    clip.advance(100);
    assert_eq!(clip.time_position(), 400_000);
    clip.set_speed(250);
    clip.advance(100);
    assert_eq!(clip.time_position(), 425_000);
}

#[test]
fn looped_clip_wraps_and_never_ends() {
    let mut clip = Clip::new(1_000_000);
    clip.advance(2500);
    assert_eq!(clip.time_position(), 500_000);
    assert!(!clip.has_ended());
    clip.advance(500);
    assert_eq!(clip.time_position(), 0);
    assert!(!clip.has_ended());
}

#[test]
fn clip_that_is_not_looped_stops_at_its_end_and_stays_ended() {
    let mut clip = Clip::new(1_000_000);
    clip.set_loop(false);
    clip.advance(600);
    assert_eq!(clip.time_position(), 600_000);
    assert!(!clip.has_ended());
    clip.advance(600);
    assert_eq!(clip.time_position(), 1_000_000);
    assert!(clip.has_ended());
    clip.advance(600);
    assert_eq!(clip.time_position(), 1_000_000);
    assert!(clip.has_ended());
    clip.rewind();
    assert_eq!(clip.time_position(), 0);
    assert!(!clip.has_ended());
}

#[test]
fn disabled_clip_stands_still_and_fires_nothing() {
    let mut clip = Clip::new(1_000_000);
    clip.add_signal(signal(1, 50_000));
    clip.set_enabled(false);
    let fired = clip.advance(100);
    assert_eq!(clip.time_position(), 0);
    assert_eq!(fired, vec![0]);
}

#[test]
fn signal_fires_when_the_position_passes_it_from_below() {
    let mut clip = Clip::new(1_000_000);
    clip.set_loop(false);
    clip.add_signal(signal(7, 300_000));
    clip.add_signal(signal(8, 1_000_000));
    clip.add_signal(signal(9, 0));
    assert_eq!(clip.advance(200), vec![0, 0, 0]);
    assert_eq!(clip.advance(100), vec![1, 0, 0]);
    assert_eq!(clip.advance(100), vec![0, 0, 0]);
    assert_eq!(clip.advance(600), vec![0, 1, 0]);
    assert_eq!(clip.advance(600), vec![0, 0, 0]);
}

#[test]
fn signal_beyond_the_end_never_fires() {
    let mut clip = Clip::new(1_000_000);
    clip.add_signal(signal(1, 1_000_001));
    assert_eq!(clip.advance(5000), vec![0]);
    clip.set_loop(false);
    assert_eq!(clip.advance(5000), vec![0]);
}

#[test]
fn looped_clip_fires_a_signal_once_in_every_lap() {
    let mut clip = Clip::new(1_000_000);
    clip.add_signal(signal(7, 300_000));
    assert_eq!(clip.advance(2500), vec![3]);
    assert_eq!(clip.time_position(), 500_000);
    assert_eq!(clip.advance(700), vec![0]);
    assert_eq!(clip.advance(100), vec![1]);
}

#[test]
fn three_laps_in_uneven_frames_fire_three_times() {
    let mut clip = Clip::new(700_000);
    clip.add_signal(signal(1, 650_000));
    clip.add_signal(signal(2, 0));
    clip.add_signal(signal(3, 700_000));
    clip.advance(123);
    assert_eq!(clip.time_position(), 123_000);
    let mut totals = [0u64; 3];
    for dt in [1000u32, 600, 500] {
        let fired = clip.advance(dt);
        for k in 0..3 {
            totals[k] += fired[k];
        }
    }
    assert_eq!(clip.time_position(), 123_000);
    assert_eq!(totals, [3, 3, 3]);
}

#[test]
fn looped_clip_without_length_stays_at_its_start() {
    let mut clip = Clip::new(0);
    clip.add_signal(signal(1, 0));
    assert_eq!(clip.advance(100), vec![0]);
    assert_eq!(clip.time_position(), 0);
    assert!(!clip.has_ended());
    clip.set_loop(false);
    assert!(clip.has_ended());
}

#[test]
fn clip_at_its_end_goes_to_its_start_when_it_becomes_looped() {
    let mut clip = Clip::new(500_000);
    clip.set_loop(false);
    clip.advance(1000);
    assert!(clip.has_ended());
    clip.set_loop(true);
    assert_eq!(clip.time_position(), 0);
    assert!(!clip.has_ended());
}

#[test]
fn the_longest_frame_at_the_highest_speed_does_not_overflow() {
    let mut clip = Clip::new(1);
    clip.add_signal(signal(1, 1));
    clip.set_speed(u32::MAX);
    let fired = clip.advance(u32::MAX);
    let travel = (u32::MAX as u64) * (u32::MAX as u64);
    assert_eq!(fired, vec![travel]);
    assert_eq!(clip.time_position(), 0);
}
