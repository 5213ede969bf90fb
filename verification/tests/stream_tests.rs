use electron_audio_native::clock::PlaybackClock;
use electron_audio_native::player::{fill_sequential, frames_played};
use electron_audio_native::stream::{fill_from, StreamState};

fn song() -> Vec<i32> {
    (1..=16).collect()
}

#[test]
fn fill_from_copies_then_pads_with_silence() {
    let samples = [1, 2, 3, 4, 5];
    let mut data = [9; 4];
    fill_from(&mut data, &samples, 3, 0);
    assert_eq!(data, [4, 5, 0, 0]);
    let mut past_end = [9; 3];
    fill_from(&mut past_end, &samples, 7, -1);
    assert_eq!(past_end, [-1, -1, -1]);
    let mut inside = [9; 2];
    fill_from(&mut inside, &samples, 0, 0);
    assert_eq!(inside, [1, 2]);
}

#[test]
fn new_stream_starts_at_frame_zero() {
    let state = StreamState::new(song(), 4, 2);
    assert_eq!(state.total_frames(), 8);
    assert_eq!(state.cursor, 0);
    assert_eq!(state.written, 0);
    assert_eq!(state.channels, 2);
    assert_eq!(state.rate, 4);
}

#[test]
fn silence_before_play_but_written_counts() {
    let mut state = StreamState::new(song(), 4, 2);
    let mut clock = PlaybackClock::new();
    let mut data = [7; 4];
    assert!(state.fits_callback(&clock, 1_000, data.len(), 0));
    state.on_callback(&mut clock, 1_000, 0, &mut data, 0);
    assert_eq!(data, [0, 0, 0, 0]);
    assert_eq!(state.t0, 1_000);
    assert_eq!(state.written, 2);
    assert_eq!(state.cursor, 0);
    assert!(!clock.started);
    assert!(!clock.is_warm());
}

#[test]
fn first_playing_callback_anchors_then_smooths() {
    let mut state = StreamState::new(song(), 4, 2);
    let mut clock = PlaybackClock::new();
    clock.start();

    let mut data = [0; 4];
    state.on_callback(&mut clock, 1_000, 0, &mut data, 0);
    assert_eq!(data, [1, 2, 3, 4]);
    assert_eq!(state.cursor, 2);
    assert_eq!(state.written, 2);
    assert!(clock.started);
    assert_eq!(clock.origin_nanos, 1_000);
    assert_eq!(clock.callbacks, 1);
    assert_eq!(clock.output_latency_ns(), 0);
    assert!(!clock.is_warm());

    // Two frames (half a second) are queued, 100 ns later.
    let mut data = [0; 4];
    state.on_callback(&mut clock, 1_100, 0, &mut data, 0);
    assert_eq!(data, [5, 6, 7, 8]);
    assert!(clock.is_warm());
    assert_eq!(clock.origin_nanos, 1_000);
    assert_eq!(clock.callbacks, 2);
    assert_eq!(state.cursor, 4);
    assert_eq!(state.written, 4);
    // At the instant frame 2 is heard, the position is the time of two frames.
    assert_eq!(clock.position_nanos(500_001_000), Some(500_000_000));
}

#[test]
fn reported_latency_moves_the_anchor_later() {
    let mut state = StreamState::new(song(), 4, 2);
    let mut clock = PlaybackClock::new();
    clock.start();
    let mut data = [0; 2];
    state.on_callback(&mut clock, 10_000, 3_000, &mut data, 0);
    assert_eq!(clock.origin_nanos, 13_000);
    assert_eq!(clock.output_latency_ns(), 3_000);
    assert_eq!(clock.position_nanos(13_000), Some(0));
}

#[test]
fn moving_average_follows_a_shifted_candidate() {
    let mut state = StreamState::new(song(), 4, 2);
    let mut clock = PlaybackClock::new();
    clock.start();
    let mut data = [0; 2];
    state.on_callback(&mut clock, 1_000, 0, &mut data, 0);
    assert_eq!(clock.origin_nanos, 1_000);
    // One frame queued, ends at 250_001_000; the backend reports more latency.
    let mut data = [0; 2];
    state.on_callback(&mut clock, 1_000, 250_001_000, &mut data, 0);
    // audible = 1_000 + 250_001_000; candidate = audible - 250_000_000 = 2_000; divisor 2.
    assert_eq!(clock.origin_nanos, 1_500);
    assert_eq!(clock.callbacks, 2);
}

#[test]
fn end_of_song_pads_with_silence_and_stops_the_cursor() {
    let mut state = StreamState::new(song(), 4, 2);
    let mut clock = PlaybackClock::new();
    clock.start();
    state.cursor = 7;
    clock.callbacks = 1;
    clock.started = true;
    let mut data = [9; 6];
    state.on_callback(&mut clock, 0, 0, &mut data, 0);
    assert_eq!(data, [15, 16, 0, 0, 0, 0]);
    assert_eq!(state.cursor, 8);
}

#[test]
fn restart_rewinds_and_reanchors() {
    let mut state = StreamState::new(song(), 4, 2);
    let mut clock = PlaybackClock::new();
    clock.start();
    let mut data = [0; 4];
    state.on_callback(&mut clock, 1_000, 0, &mut data, 0);
    state.on_callback(&mut clock, 1_000, 0, &mut data, 0);
    assert_eq!(state.cursor, 4);
    clock.restart();
    let mut data = [0; 4];
    state.on_callback(&mut clock, 2_000_000_000, 0, &mut data, 0);
    assert_eq!(data, [1, 2, 3, 4]);
    assert_eq!(state.cursor, 2);
    assert_eq!(clock.callbacks, 1);
    assert_eq!(clock.seek_frames, -1);
    assert!(clock.started);
    assert_eq!(clock.origin_nanos, 2_000_000_000);
}

#[test]
fn seek_past_the_end_is_clamped() {
    let mut state = StreamState::new(song(), 4, 2);
    let mut clock = PlaybackClock::new();
    clock.seek_frames = 100;
    let mut data = [3; 2];
    state.on_callback(&mut clock, 5, 0, &mut data, 0);
    assert_eq!(state.cursor, 8);
    assert_eq!(data, [0, 0]);
    assert_eq!(clock.seek_frames, -1);
}

#[test]
fn overflowing_callbacks_are_reported() {
    let mut state = StreamState::new(song(), 4, 2);
    let clock = PlaybackClock::new();
    state.written = u64::MAX / 2;
    assert!(!state.fits_callback(&clock, 0, 4, 0));
    state.written = 1;
    assert!(!state.fits_callback(&clock, u64::MAX, 4, 1));
    assert!(state.fits_callback(&clock, 0, 4, 0));
}

#[test]
fn sequential_fill_counts_every_sample() {
    let samples = [1.0f32, 2.0, 3.0];
    let mut data = [9.0f32; 4];
    let next = fill_sequential(&mut data, &samples, 1, 0.0);
    assert_eq!(data, [2.0, 3.0, 0.0, 0.0]);
    assert_eq!(next, 5);
    assert_eq!(frames_played(next, 2), 2);
    assert_eq!(frames_played(7, 1), 7);
}

#[test]
fn warm_stays_set_across_restart_and_silence() {
    let mut state = StreamState::new(song(), 4, 2);
    let mut clock = PlaybackClock::new();
    let mut data = [0; 2];
    state.on_callback(&mut clock, 0, 0, &mut data, 0);
    assert!(!clock.is_warm());
    // One frame was queued at instant 0; a callback before it has sounded sees it ahead.
    state.on_callback(&mut clock, 10, 0, &mut data, 0);
    assert!(clock.is_warm());
    clock.restart();
    assert!(clock.is_warm());
    // Long after everything sounded, nothing is ahead: the flag stays.
    state.on_callback(&mut clock, 10_000_000_000, 0, &mut data, 0);
    assert!(clock.is_warm());
    clock.set_offset_ns(5);
    clock.start();
    assert!(clock.is_warm());
}

#[test]
fn long_sessions_stay_in_range() {
    let mut state = StreamState::new(song(), 48_000, 2);
    let clock = PlaybackClock::new();
    state.t0 = 1_000;
    state.written = 48_000 * 3_600 * 24;
    assert!(state.fits_callback(&clock, 86_400 * 1_000_000_000, 512, 5_000_000));
}

#[test]
fn consecutive_buffers_carry_the_song_without_gaps() {
    let mut state = StreamState::new(song(), 4, 2);
    let mut clock = PlaybackClock::new();
    clock.start();
    let mut first = [0; 4];
    let mut second = [0; 6];
    let mut third = [0; 8];
    state.on_callback(&mut clock, 0, 0, &mut first, 0);
    state.on_callback(&mut clock, 0, 0, &mut second, 0);
    state.on_callback(&mut clock, 0, 0, &mut third, 0);
    assert_eq!(first, [1, 2, 3, 4]);
    assert_eq!(second, [5, 6, 7, 8, 9, 10]);
    assert_eq!(third, [11, 12, 13, 14, 15, 16, 0, 0]);
}

#[test]
fn four_days_of_frames_stay_in_range() {
    let mut state = StreamState::new(song(), 48_000, 2);
    let clock = PlaybackClock::new();
    state.t0 = 1_000;
    state.written = 48_000 * 3_600 * 24 * 4;
    assert!(state.fits_callback(&clock, 4 * 86_400 * 1_000_000_000, 512, 5_000_000));
}
