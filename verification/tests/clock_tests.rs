use electron_audio_native::clock::{
    nanos_for_frames, smooth_origin, smoothing_divisor_for, PlaybackClock, MAX_SMOOTHING,
    NANOS_PER_SECOND, NO_SEEK,
};

#[test]
fn new_clock_is_silent_and_unmeasured() {
    let clock = PlaybackClock::new();
    assert!(!clock.is_playing());
    assert!(!clock.is_warm());
    assert!(!clock.started);
    assert_eq!(clock.seek_frames, NO_SEEK);
    assert_eq!(clock.offset_ns(), 0);
    assert_eq!(clock.output_latency_ns(), 0);
    assert_eq!(clock.position_nanos(123_456), None);
}

#[test]
fn start_only_raises_the_flag() {
    let mut clock = PlaybackClock::new();
    clock.start();
    assert!(clock.is_playing());
    assert_eq!(clock.seek_frames, NO_SEEK);
    assert!(!clock.started);
}

#[test]
fn restart_requests_frame_zero_and_plays() {
    let mut clock = PlaybackClock::new();
    clock.restart();
    assert!(clock.is_playing());
    assert_eq!(clock.seek_frames, 0);
    assert_eq!(clock.take_seek(), 0);
    assert_eq!(clock.seek_frames, NO_SEEK);
    assert_eq!(clock.take_seek(), NO_SEEK);
}

#[test]
fn position_is_now_minus_origin_minus_offset() {
    let mut clock = PlaybackClock::new();
    clock.started = true;
    clock.origin_nanos = 1_000;
    assert_eq!(clock.position_nanos(5_000), Some(4_000));
    clock.set_offset_ns(500);
    assert_eq!(clock.offset_ns(), 500);
    assert_eq!(clock.position_nanos(5_000), Some(3_500));
    clock.set_offset_ns(-2_000);
    assert_eq!(clock.position_nanos(5_000), Some(6_000));
    assert_eq!(clock.position_nanos(0), Some(1_000));
}

#[test]
fn position_can_be_negative_before_the_origin() {
    let mut clock = PlaybackClock::new();
    clock.started = true;
    clock.origin_nanos = u64::MAX;
    clock.set_offset_ns(i64::MAX);
    assert_eq!(
        clock.position_nanos(0),
        Some(-(u64::MAX as i128) - i64::MAX as i128)
    );
}

#[test]
fn smoothing_divisor_grows_then_caps() {
    assert_eq!(smoothing_divisor_for(0), 1);
    assert_eq!(smoothing_divisor_for(1), 2);
    assert_eq!(smoothing_divisor_for(30), 31);
    assert_eq!(smoothing_divisor_for(31), MAX_SMOOTHING);
    assert_eq!(smoothing_divisor_for(1_000), MAX_SMOOTHING);
}

#[test]
fn smoothing_moves_toward_candidate_truncating() {
    assert_eq!(smooth_origin(100, 200, 2), 150);
    assert_eq!(smooth_origin(200, 100, 2), 150);
    assert_eq!(smooth_origin(100, 103, 2), 101);
    assert_eq!(smooth_origin(103, 100, 2), 102);
    assert_eq!(smooth_origin(1_000, 1_031, 32), 1_000);
    assert_eq!(smooth_origin(1_000, 1_064, 32), 1_002);
    assert_eq!(smooth_origin(7, 7, 5), 7);
    assert_eq!(smooth_origin(0, u64::MAX, 1), u64::MAX);
}

#[test]
fn nanos_for_frames_rounds_down() {
    assert_eq!(nanos_for_frames(48_000, 48_000), NANOS_PER_SECOND);
    assert_eq!(nanos_for_frames(1, 48_000), 20_833);
    assert_eq!(nanos_for_frames(0, 44_100), 0);
    assert_eq!(nanos_for_frames(256, 48_000), 5_333_333);
}
