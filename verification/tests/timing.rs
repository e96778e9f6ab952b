use std::sync::atomic::{AtomicU64, AtomicUsize};
use std::sync::Arc;

use playback_core::time::{calc_time, compute_played_frames, PlayTime, TimeBase};
use playback_core::utils::format_time;

fn track(channels: usize, src: u32, dst: u32, n_frames: u64) -> PlayTime {
    PlayTime::new(
        TimeBase { numer: 1, denom: src },
        n_frames,
        channels,
        src,
        dst,
        Arc::new(AtomicU64::new(0)),
        Arc::new(AtomicUsize::new(0)),
    )
    .unwrap()
}

#[test]
fn calc_time_splits_seconds_and_fraction() {
    let tb = TimeBase { numer: 1, denom: 44100 };
    let one = calc_time(tb, 44100);
    assert_eq!((one.seconds, one.frac_num, one.frac_den), (1, 0, 44100));
    let one_and_half = calc_time(tb, 66150);
    assert_eq!(
        (one_and_half.seconds, one_and_half.frac_num, one_and_half.frac_den),
        (1, 22050, 44100)
    );
    let zero = calc_time(tb, 0);
    assert_eq!((zero.seconds, zero.frac_num), (0, 0));
}

#[test]
fn calc_time_with_millisecond_base() {
    let tb = TimeBase { numer: 1, denom: 1000 };
    let t = calc_time(tb, 2500);
    assert_eq!((t.seconds, t.frac_num, t.frac_den), (2, 500, 1000));
}

#[test]
fn latency_subtracts_ring_content_from_position() {
    // Stereo at equal rates: 8820 queued samples are 4410 frames of latency.
    assert_eq!(compute_played_frames(44100, 8820, 2, 44100, 44100), 39690);
    // An empty ring leaves the decoded count untouched.
    assert_eq!(compute_played_frames(44100, 0, 2, 44100, 44100), 44100);
    // More latency than decoded frames clamps at zero.
    assert_eq!(compute_played_frames(100, 8820, 2, 44100, 44100), 0);
}

#[test]
fn latency_rescales_between_device_and_source_rate() {
    // 9600 samples stereo at 48 kHz device rate are 4800 device frames,
    // which cover the same time as 4410 source frames at 44.1 kHz.
    assert_eq!(compute_played_frames(44100, 9600, 2, 44100, 48000), 44100 - 4410);
}

#[test]
fn played_time_is_decoded_minus_latency() {
    let pt = track(2, 44100, 44100, 44100 * 5);
    let t = pt.played_time_at(44100, 8820);
    assert_eq!((t.seconds, t.frac_num, t.frac_den), (0, 39690, 44100));
    let drained = pt.played_time_at(44100, 0);
    assert_eq!((drained.seconds, drained.frac_num), (1, 0));
}

#[test]
fn played_seconds_never_move_backwards_while_producing() {
    let pt = track(2, 44100, 44100, 44100 * 60);
    let mut last: u64 = 0;
    let observations: Vec<(u64, usize)> = vec![
        (0, 0),
        (4410, 4410),
        (8820, 4410),
        (44100, 2205),
        (88200, 0),
    ];
    for (decoded, occupied) in observations {
        let t = pt.played_time_at(decoded, occupied);
        assert!(t.seconds >= last);
        last = t.seconds;
    }
}

#[test]
fn position_after_seek_is_the_landed_position() {
    let pt = track(2, 44100, 44100, 44100 * 10);
    // Seek landed on tick 7 * 44100; leftover cleared, ring drained.
    let t = pt.played_time_at(7 * 44100, 0);
    assert_eq!(t.seconds, 7);
    // While stale samples still sit in the ring the position stays at or
    // before the seek point.
    let with_stale = pt.played_time_at(7 * 44100, 8820);
    assert!(with_stale.seconds <= 7);
}

#[test]
fn duration_comes_from_the_time_base() {
    let pt = track(2, 44100, 44100, 44100 * 5);
    assert_eq!(pt.duration_sec(), 5);
    let t = pt.duration();
    assert_eq!((t.seconds, t.frac_num), (5, 0));
}

#[test]
fn track_parameters_reject_zeroes() {
    let decoded = Arc::new(AtomicU64::new(0));
    let occupied = Arc::new(AtomicUsize::new(0));
    let tb = TimeBase { numer: 1, denom: 44100 };
    assert!(PlayTime::new(tb, 100, 0, 44100, 44100, decoded.clone(), occupied.clone()).is_none());
    assert!(PlayTime::new(tb, 100, 2, 0, 44100, decoded.clone(), occupied.clone()).is_none());
    assert!(PlayTime::new(tb, 100, 2, 44100, 0, decoded.clone(), occupied.clone()).is_none());
    let bad_tb = TimeBase { numer: 0, denom: 44100 };
    assert!(PlayTime::new(bad_tb, 100, 2, 44100, 44100, decoded.clone(), occupied.clone())
        .is_none());
    assert!(PlayTime::new(tb, 100, 2, 44100, 44100, decoded, occupied).is_some());
}

#[test]
fn absurd_tick_counts_saturate() {
    // A degenerate time base can push the second count past what a u64
    // holds; the stamp then saturates instead of wrapping.
    let tb = TimeBase { numer: u32::MAX, denom: 1 };
    let t = calc_time(tb, u64::MAX);
    assert_eq!((t.seconds, t.frac_num, t.frac_den), (u64::MAX, 0, 1));
    // Track parameters that long are rejected outright.
    let decoded = Arc::new(AtomicU64::new(0));
    let occupied = Arc::new(AtomicUsize::new(0));
    assert!(PlayTime::new(tb, u64::MAX, 2, 44100, 44100, decoded, occupied).is_none());
}

#[test]
fn format_time_pads_to_two_digits() {
    assert_eq!(format_time(0), "00:00");
    assert_eq!(format_time(9), "00:09");
    assert_eq!(format_time(59), "00:59");
    assert_eq!(format_time(60), "01:00");
    assert_eq!(format_time(61), "01:01");
    assert_eq!(format_time(119), "01:59");
    assert_eq!(format_time(600), "10:00");
    assert_eq!(format_time(3661), "61:01");
    assert_eq!(format_time(6000), "100:00");
}
