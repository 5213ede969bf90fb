//! What the output callback does each time the device asks for a buffer: measure how
//! far ahead the device queues audio, serve seek requests, anchor and smooth the clock,
//! and fill the buffer from the song (or with silence).
use vstd::prelude::*;
use crate::clock::{
    frames_to_nanos, lemma_smoothing_stays_between, max_int, min_int, nanos_for_frames,
    saturating_diff, smooth_origin, smoothing_divisor, smoothing_divisor_for, PlaybackClock,
    NANOS_PER_SECOND,
};

verus! {

/// The buffer handed to the device: `len` samples of `samples` from index `start` on,
/// and `silence` where the song has no more samples.
pub open spec fn filled<T>(samples: Seq<T>, start: int, len: int, silence: T) -> Seq<T> {
    Seq::new(
        len as nat,
        |i: int|
            if start + i < samples.len() {
                samples[start + i]
            } else {
                silence
            },
    )
}

/// Fills `data` with the samples of `samples` from index `start` on; once they run out,
/// with `silence`.
pub fn fill_from<T: Copy>(data: &mut [T], samples: &[T], start: usize, silence: T)
    ensures
        final(data)@ == filled(samples@, start as int, old(data)@.len() as int, silence),
{
    let len = data.len();
    let ghost target = filled(samples@, start as int, len as int, silence);
    let mut i: usize = 0;
    while i < len
        invariant
            len == data@.len(),
            i <= len,
            target == filled(samples@, start as int, len as int, silence),
            forall|k: int| 0 <= k < i ==> data@[k] == target[k],
        decreases len - i,
    {
        let value = if start < samples.len() && i < samples.len() - start {
            samples[start + i]
        } else {
            silence
        };
        data[i] = value;
        i += 1;
    }
    assert(data@ =~= target);
}

/// State private to the output callback, together with the song it plays.
pub struct StreamState<T> {
    /// Interleaved samples of the song, already in the device's format.
    pub samples: Vec<T>,
    /// Channels per frame.
    pub channels: usize,
    /// Frames per second.
    pub rate: u64,
    /// Instant of the first callback, when the hardware starts consuming.
    pub t0: u64,
    /// Frames handed to the device so far, the silence before play included.
    pub written: u64,
    /// Frames of the song handed to the device so far.
    pub cursor: usize,
}

impl<T: Copy> StreamState<T> {
    /// Whole frames in the song.
    pub open spec fn frame_total(&self) -> int {
        (self.samples@.len() as int) / (self.channels as int)
    }

    /// The state is usable: a channel count and a rate to divide by, and a cursor
    /// inside the song.
    pub open spec fn wf(&self) -> bool {
        &&& self.channels > 0
        &&& self.rate > 0
        &&& self.cursor <= self.frame_total()
    }

    /// Frames in a device buffer of `data_len` samples.
    pub open spec fn frames_in(&self, data_len: int) -> int {
        data_len / (self.channels as int)
    }

    /// The instant the hardware started consuming, as the callback at `now` sees it:
    /// `now` itself while nothing has been written yet.
    pub open spec fn anchor_time(&self, now: int) -> int {
        if self.written == 0 {
            now
        } else {
            self.t0 as int
        }
    }

    /// The instant at which everything written so far will have been played.
    pub open spec fn scheduled_end(&self, now: int) -> int {
        self.anchor_time(now) + frames_to_nanos(self.written as int, self.rate as int)
    }

    /// The latency computed from the frames delivered: how long until what was already
    /// handed to the device has sounded.
    pub open spec fn measured_ahead(&self, now: int) -> int {
        saturating_diff(self.scheduled_end(now), now)
    }

    /// How long until the first frame of this buffer is heard: the larger of the
    /// latency the backend reports and the one measured.
    pub open spec fn ahead(&self, now: int, reported: int) -> int {
        max_int(reported, self.measured_ahead(now))
    }

    /// The cursor once a seek request `seek` has been served: clamped to the song.
    pub open spec fn cursor_after_seek(&self, seek: i64) -> int {
        if seek >= 0 {
            min_int((seek as usize) as int, self.frame_total())
        } else {
            self.cursor as int
        }
    }

    /// The origin implied by this callback: the instant the first frame of the buffer is
    /// heard, minus the time of the song before the cursor.
    pub open spec fn candidate_origin(&self, clock: PlaybackClock, now: int, reported: int) -> int {
        saturating_diff(
            now + self.ahead(now, reported),
            frames_to_nanos(self.cursor_after_seek(clock.seek_frames), self.rate as int),
        )
    }

    /// The clock after a callback at `now`.
    pub open spec fn clock_after(&self, clock: PlaybackClock, now: int, reported: int) -> PlaybackClock {
        clock.after_callback(
            self.measured_ahead(now),
            self.ahead(now, reported),
            self.candidate_origin(clock, now, reported),
        )
    }

    /// The cursor after a callback that was handed a buffer of `data_len` samples.
    pub open spec fn cursor_after(&self, clock: PlaybackClock, data_len: int) -> int {
        let from = self.cursor_after_seek(clock.seek_frames);
        if clock.armed {
            min_int(from + self.frames_in(data_len), self.frame_total())
        } else {
            from
        }
    }

    /// What the callback writes into a buffer of `data_len` samples: the song from the
    /// cursor on while playing, silence otherwise.
    pub open spec fn output(&self, clock: PlaybackClock, data_len: int, silence: T) -> Seq<T> {
        if clock.armed {
            filled(
                self.samples@,
                self.cursor_after_seek(clock.seek_frames) * self.channels,
                data_len,
                silence,
            )
        } else {
            filled(Seq::empty(), 0, data_len, silence)
        }
    }

    /// The arithmetic of a callback stays within the machine integers.
    pub open spec fn callback_in_range(&self, clock: PlaybackClock, now: int, data_len: int, reported: int) -> bool {
        let frames = self.frames_in(data_len);
        let from = self.cursor_after_seek(clock.seek_frames);
        &&& self.written * NANOS_PER_SECOND <= u64::MAX
        &&& self.scheduled_end(now) <= u64::MAX
        &&& now + self.ahead(now, reported) <= u64::MAX
        &&& self.written + frames <= u64::MAX
        &&& clock.armed ==> {
            &&& from * NANOS_PER_SECOND <= u64::MAX
            &&& clock.served_before() < u64::MAX
            &&& from + frames <= usize::MAX
        }
    }

    /// The state of a stream that is about to play `samples`, with `channels` channels
    /// at `sample_rate` frames per second: nothing written yet, cursor at the start.
    pub fn new(samples: Vec<T>, sample_rate: u32, channels: u16) -> (state: StreamState<T>)
        requires
            sample_rate > 0,
            channels > 0,
        ensures
            state.wf(),
            state.samples@ == samples@,
            state.channels == channels,
            state.rate == sample_rate,
            state.t0 == 0,
            state.written == 0,
            state.cursor == 0,
    {
        StreamState {
            samples,
            channels: channels as usize,
            rate: sample_rate as u64,
            t0: 0,
            written: 0,
            cursor: 0,
        }
    }

    /// Whole frames in the song.
    pub fn total_frames(&self) -> (frames: usize)
        requires
            self.channels > 0,
        ensures
            frames == self.frame_total(),
    {
        self.samples.len() / self.channels
    }

    /// Whether a callback at `now`, with a buffer of `data_len` samples and a reported
    /// latency of `reported` nanoseconds, keeps its arithmetic within the machine integers.
    pub fn fits_callback(&self, clock: &PlaybackClock, now: u64, data_len: usize, reported: u64) -> (fits: bool)
        requires
            self.wf(),
        ensures
            fits == self.callback_in_range(*clock, now as int, data_len as int, reported as int),
    {
        let frames = (data_len / self.channels) as u128;
        let total = self.total_frames();
        let from: usize = if clock.seek_frames >= 0 {
            let target = #[verifier::truncate] (clock.seek_frames as usize);
            if target < total {
                target
            } else {
                total
            }
        } else {
            self.cursor
        };
        let nanos = NANOS_PER_SECOND as u128;
        let max = u64::MAX as u128;
        let written_nanos = self.written as u128 * nanos;
        if written_nanos > max {
            return false;
        }
        let anchor = if self.written == 0 {
            now as u128
        } else {
            self.t0 as u128
        };
        let scheduled = anchor + written_nanos / self.rate as u128;
        if scheduled > max {
            return false;
        }
        let measured = if scheduled > now as u128 {
            scheduled - now as u128
        } else {
            0
        };
        let ahead = if reported as u128 > measured {
            reported as u128
        } else {
            measured
        };
        if now as u128 + ahead > max {
            return false;
        }
        if self.written as u128 + frames > max {
            return false;
        }
        if clock.armed {
            if from as u128 * nanos > max {
                return false;
            }
            let served: u64 = if clock.seek_frames >= 0 {
                0
            } else {
                clock.callbacks
            };
            if served == u64::MAX {
                return false;
            }
            if from as u128 + frames > usize::MAX as u128 {
                return false;
            }
        }
        true
    }

    /// Serves one request of the device for a buffer: `now` is the instant of the
    /// callback and `reported` the output latency the backend reports, both in
    /// nanoseconds; `data` is the buffer to fill and `silence` the sample that fills
    /// what the song does not.
    ///
    /// The first callback fixes `t0`; every callback measures how far ahead the device
    /// queues audio and marks the clock warm once it does; a pending seek moves the
    /// cursor (clamped to the song) and restarts the anchoring. While playing, the first
    /// callback after a (re)start anchors the origin and records the latency, the
    /// following ones move it by a moving average; the buffer gets the song from the
    /// cursor on and the cursor advances by the frames of the buffer.
    pub fn on_callback(
        &mut self,
        clock: &mut PlaybackClock,
        now: u64,
        reported: u64,
        data: &mut [T],
        silence: T,
    )
        requires
            old(self).wf(),
            old(self).callback_in_range(*old(clock), now as int, old(data)@.len() as int, reported as int),
        ensures
            final(self).wf(),
            final(self).samples@ == old(self).samples@,
            final(self).channels == old(self).channels,
            final(self).rate == old(self).rate,
            final(self).t0 == old(self).anchor_time(now as int),
            final(self).written == old(self).written + old(self).frames_in(old(data)@.len() as int),
            final(self).cursor == old(self).cursor_after(*old(clock), old(data)@.len() as int),
            *final(clock) == old(self).clock_after(*old(clock), now as int, reported as int),
            final(data)@ == old(self).output(*old(clock), old(data)@.len() as int, silence),
            final(clock).started == if old(clock).seek_pending() {
                old(clock).armed
            } else {
                old(clock).started || old(clock).armed && old(clock).callbacks == 0
            },
    {
        let frames = data.len() / self.channels;
        if self.written == 0 {
            self.t0 = now;
        }
        let scheduled = self.t0 + nanos_for_frames(self.written, self.rate);
        let measured = if scheduled > now {
            scheduled - now
        } else {
            0
        };
        let ahead = if reported > measured {
            reported
        } else {
            measured
        };
        let audible_at = now + ahead;
        if measured > 0 {
            clock.warm = true;
        }
        let seek = clock.take_seek();
        if seek >= 0 {
            let target = #[verifier::truncate] (seek as usize);
            let total = self.total_frames();
            self.cursor = if target < total {
                target
            } else {
                total
            };
            clock.callbacks = 0;
            clock.started = false;
        }
        if clock.armed {
            let cursor_nanos = nanos_for_frames(self.cursor as u64, self.rate);
            let candidate = if audible_at > cursor_nanos {
                audible_at - cursor_nanos
            } else {
                0
            };
            let served = clock.callbacks;
            clock.callbacks = served + 1;
            if served == 0 {
                clock.origin_nanos = candidate;
                clock.output_latency_ns = ahead;
                clock.started = true;
            } else {
                let divisor = smoothing_divisor_for(served);
                clock.origin_nanos = smooth_origin(clock.origin_nanos, candidate, divisor);
            }
            let channels = self.channels;
            let cursor = self.cursor;
            let sample_count = self.samples.len();
            assert(cursor * channels <= sample_count) by (nonlinear_arith)
                requires
                    cursor <= (sample_count as int) / (channels as int),
                    channels > 0,
            ;
            let start = cursor * channels;
            fill_from(data, self.samples.as_slice(), start, silence);
            let total = self.total_frames();
            let advanced = cursor + frames;
            self.cursor = if advanced < total {
                advanced
            } else {
                total
            };
        } else {
            fill_from(data, &[], 0, silence);
        }
        self.written = self.written + frames as u64;
    }
}

/// The clock is anchored to the instant the sound is heard: the first callback that
/// plays after a (re)start or a seek sets the origin so that, at the instant the first
/// frame of its buffer is heard, the position (with no offset) is exactly the time of
/// the song at the cursor; it records the latency it used and marks the clock started.
pub proof fn lemma_first_callback_anchors<T: Copy>(
    state: StreamState<T>,
    clock: PlaybackClock,
    now: int,
    reported: int,
)
    requires
        state.wf(),
        clock.armed,
        clock.served_before() == 0,
        0 <= now,
        0 <= reported,
        now + state.ahead(now, reported) <= u64::MAX,
        frames_to_nanos(state.cursor_after_seek(clock.seek_frames), state.rate as int) <= now
            + state.ahead(now, reported),
    ensures
        ({
            let next = state.clock_after(clock, now, reported);
            let audible = now + state.ahead(now, reported);
            let song_time = frames_to_nanos(state.cursor_after_seek(clock.seek_frames), state.rate as int);
            &&& next.started
            &&& next.callbacks == 1
            &&& next.output_latency_ns == state.ahead(now, reported)
            &&& next.origin_nanos + song_time == audible
            &&& next.position_at(audible) == Some(song_time - clock.offset_ns)
        }),
{
    let from = state.cursor_after_seek(clock.seek_frames);
    assert(frames_to_nanos(from, state.rate as int) >= 0) by (nonlinear_arith)
        requires
            from >= 0,
            state.rate > 0,
    ;
    assert(state.measured_ahead(now) >= 0);
}

/// `restart` goes back to the beginning: the next callback plays the song from frame 0,
/// re-anchors the clock so that the position is 0 (less the offset) at the instant its
/// first frame is heard, and moves the cursor by the frames of its buffer.
pub proof fn lemma_restart_rewinds<T: Copy>(
    state: StreamState<T>,
    clock: PlaybackClock,
    now: int,
    reported: int,
    data_len: int,
    silence: T,
)
    requires
        state.wf(),
        0 <= now,
        0 <= reported,
        0 <= data_len,
        now + state.ahead(now, reported) <= u64::MAX,
    ensures
        ({
            let rewound = clock.rewound_state();
            let next = state.clock_after(rewound, now, reported);
            let audible = now + state.ahead(now, reported);
            &&& state.cursor_after_seek(rewound.seek_frames) == 0
            &&& state.cursor_after(rewound, data_len) == min_int(
                state.frames_in(data_len),
                state.frame_total(),
            )
            &&& state.output(rewound, data_len, silence) == filled(state.samples@, 0, data_len, silence)
            &&& next.started
            &&& next.armed
            &&& next.callbacks == 1
            &&& next.origin_nanos == audible
            &&& next.position_at(audible) == Some(0 - clock.offset_ns)
        }),
{
    let rewound = clock.rewound_state();
    assert(state.frame_total() >= 0) by (nonlinear_arith)
        requires
            state.channels > 0,
            state.samples@.len() >= 0,
            state.frame_total() == (state.samples@.len() as int) / (state.channels as int),
    ;
    assert(frames_to_nanos(0, state.rate as int) == 0);
    lemma_first_callback_anchors(state, rewound, now, reported);
}

/// Once the device queues audio ahead, the clock stays warm: no callback, start,
/// restart or offset change clears the flag; and a callback that measures a positive
/// latency sets it.
pub proof fn lemma_warm_is_sticky<T: Copy>(
    state: StreamState<T>,
    clock: PlaybackClock,
    now: int,
    reported: int,
    offset: i64,
)
    ensures
        clock.warm ==> state.clock_after(clock, now, reported).warm,
        state.measured_ahead(now) > 0 ==> state.clock_after(clock, now, reported).warm,
        clock.warm ==> clock.armed_state().warm,
        clock.warm ==> clock.rewound_state().warm,
        clock.warm ==> clock.with_offset(offset).warm,
        state.clock_after(clock, now, reported).warm == (clock.warm || state.measured_ahead(now) > 0),
        clock.armed_state().warm == clock.warm,
        clock.rewound_state().warm == clock.warm,
        clock.with_offset(offset).warm == clock.warm,
        PlaybackClock::initial().warm == false,
{
}

/// The playing flag is raised by `start` and `restart` and by nothing else, and nothing
/// clears it: not a callback (not even one at the end of the song), nor an offset change.
pub proof fn lemma_playing_flag<T: Copy>(
    state: StreamState<T>,
    clock: PlaybackClock,
    now: int,
    reported: int,
    offset: i64,
)
    ensures
        PlaybackClock::initial().armed == false,
        clock.armed_state().armed,
        clock.rewound_state().armed,
        state.clock_after(clock, now, reported).armed == clock.armed,
        clock.with_offset(offset).armed == clock.armed,
{
}

/// No callback overflows while the frames delivered so far, counting this buffer, stay
/// below `u64::MAX / NANOS_PER_SECOND` (about 4.4 days at 48 kHz), the song is no longer
/// than that either, the instants involved stay below a quarter of the 64-bit range
/// (about 146 years of nanoseconds), the rate is at least 2 frames per second (at 1, the
/// last frames of that span would overflow the scheduled end), and the song plus the
/// buffer fits in the address space.
pub proof fn lemma_callback_in_range_when_bounded<T: Copy>(
    state: StreamState<T>,
    clock: PlaybackClock,
    now: int,
    data_len: int,
    reported: int,
)
    requires
        state.wf(),
        state.rate >= 2,
        0 <= now <= (u64::MAX as int) / 4,
        0 <= reported <= (u64::MAX as int) / 4,
        state.t0 <= (u64::MAX as int) / 4,
        0 <= data_len,
        (state.written + state.frames_in(data_len)) * NANOS_PER_SECOND <= u64::MAX,
        state.frame_total() * NANOS_PER_SECOND <= u64::MAX,
        state.frame_total() + state.frames_in(data_len) <= usize::MAX,
        clock.callbacks < u64::MAX,
    ensures
        state.callback_in_range(clock, now, data_len, reported),
{
    let frames = state.frames_in(data_len);
    assert(frames >= 0) by (nonlinear_arith)
        requires
            data_len >= 0,
            state.channels > 0,
            frames == data_len / (state.channels as int),
    ;
    assert(state.frame_total() >= 0) by (nonlinear_arith)
        requires
            state.channels > 0,
            state.frame_total() == (state.samples@.len() as int) / (state.channels as int),
    ;
    let w = state.written as int;
    assert(w * NANOS_PER_SECOND <= (w + frames) * NANOS_PER_SECOND) by (nonlinear_arith)
        requires
            w >= 0,
            frames >= 0,
    ;
    assert(w + frames <= (w + frames) * NANOS_PER_SECOND) by (nonlinear_arith)
        requires
            w >= 0,
            frames >= 0,
    ;
    assert(0 <= frames_to_nanos(w, state.rate as int) <= (w * NANOS_PER_SECOND) / 2)
        by (nonlinear_arith)
        requires
            w >= 0,
            state.rate >= 2,
            frames_to_nanos(w, state.rate as int) == w * (NANOS_PER_SECOND as int) / (
            state.rate as int),
    ;
    let from = state.cursor_after_seek(clock.seek_frames);
    assert(0 <= from <= state.frame_total());
    assert(from * NANOS_PER_SECOND <= state.frame_total() * NANOS_PER_SECOND) by (nonlinear_arith)
        requires
            0 <= from <= state.frame_total(),
    ;
}

/// Until playback is started the device gets only silence, the song does not advance
/// (but for a pending seek) and the origin is left as it is.
pub proof fn lemma_silent_until_started<T: Copy>(
    state: StreamState<T>,
    clock: PlaybackClock,
    now: int,
    reported: int,
    data_len: int,
    silence: T,
)
    requires
        !clock.armed,
        0 <= data_len,
    ensures
        forall|i: int|
            0 <= i < data_len ==> #[trigger] state.output(clock, data_len, silence)[i] == silence,
        state.output(clock, data_len, silence).len() == data_len,
        state.cursor_after(clock, data_len) == state.cursor_after_seek(clock.seek_frames),
        state.clock_after(clock, now, reported).origin_nanos == clock.origin_nanos,
        !clock.seek_pending() ==> state.cursor_after(clock, data_len) == state.cursor,
{
}

/// Without a seek, playback only moves forward: the cursor never goes back and never
/// passes the end of the song.
pub proof fn lemma_cursor_moves_forward<T: Copy>(state: StreamState<T>, clock: PlaybackClock, data_len: int)
    requires
        state.wf(),
        !clock.seek_pending(),
        0 <= data_len,
    ensures
        state.cursor <= state.cursor_after(clock, data_len) <= state.frame_total(),
{
    assert(state.frames_in(data_len) >= 0) by (nonlinear_arith)
        requires
            data_len >= 0,
            state.channels > 0,
            state.frames_in(data_len) == data_len / (state.channels as int),
    ;
}

/// A seek moves the cursor to the requested frame, clamped to the end of the song,
/// and makes the next playing callback anchor the clock anew.
pub proof fn lemma_seek_clamps_and_reanchors<T: Copy>(state: StreamState<T>, clock: PlaybackClock)
    requires
        state.wf(),
        clock.seek_frames >= 0,
    ensures
        state.cursor_after_seek(clock.seek_frames) == min_int(
            (clock.seek_frames as usize) as int,
            state.frame_total(),
        ),
        0 <= state.cursor_after_seek(clock.seek_frames) <= state.frame_total(),
        clock.served_before() == 0,
{
}

/// After the anchoring callback, each playing callback moves the origin toward the
/// origin it implies, never past it and never farther from it.
pub proof fn lemma_origin_follows_candidate<T: Copy>(
    state: StreamState<T>,
    clock: PlaybackClock,
    now: int,
    reported: int,
)
    requires
        state.wf(),
        clock.armed,
        clock.served_before() > 0,
        0 <= now,
        0 <= reported,
        now + state.ahead(now, reported) <= u64::MAX,
    ensures
        ({
            let candidate = state.candidate_origin(clock, now, reported);
            let next = state.clock_after(clock, now, reported).origin_nanos as int;
            let prev = clock.origin_nanos as int;
            &&& min_int(prev, candidate) <= next <= max_int(prev, candidate)
            &&& (if candidate >= prev { candidate - next } else { next - candidate })
                <= (if candidate >= prev { candidate - prev } else { prev - candidate })
        }),
{
    let candidate = state.candidate_origin(clock, now, reported);
    let divisor = smoothing_divisor(clock.served_before());
    assert(state.measured_ahead(now) >= 0);
    assert(frames_to_nanos(state.cursor_after_seek(clock.seek_frames), state.rate as int) >= 0)
        by (nonlinear_arith)
        requires
            state.cursor_after_seek(clock.seek_frames) >= 0,
            state.rate > 0,
    ;
    assert(0 <= candidate <= u64::MAX);
    lemma_smoothing_stays_between(clock.origin_nanos as int, candidate, divisor);
}

/// The latency used is never below what the backend reports nor below what the frames
/// already delivered imply: where the backend reports 0 (ALSA through PipeWire), the
/// measured latency is used.
pub proof fn lemma_latency_is_never_underestimated<T: Copy>(state: StreamState<T>, now: int, reported: int)
    ensures
        state.ahead(now, reported) >= reported,
        state.ahead(now, reported) >= state.measured_ahead(now),
        state.ahead(now, reported) == reported || state.ahead(now, reported) == state.measured_ahead(now),
        reported <= 0 ==> state.ahead(now, reported) == state.measured_ahead(now),
{
}

/// While playing without seeks, consecutive buffers carry the song without gap or
/// overlap: the next buffer starts where the previous one stopped, so two buffers, the
/// first of whole frames and not reaching the end of the song, hold the same samples as
/// one buffer spanning both.
pub proof fn lemma_buffers_are_contiguous<T: Copy>(
    state: StreamState<T>,
    clock: PlaybackClock,
    next: StreamState<T>,
    now: int,
    reported: int,
    first_len: int,
    second_len: int,
    silence: T,
)
    requires
        state.wf(),
        clock.armed,
        !clock.seek_pending(),
        0 <= first_len,
        0 <= second_len,
        first_len % (state.channels as int) == 0,
        state.cursor + state.frames_in(first_len) <= state.frame_total(),
        next.samples@ == state.samples@,
        next.channels == state.channels,
        next.cursor == state.cursor_after(clock, first_len),
    ensures
        next.cursor == state.cursor + state.frames_in(first_len),
        state.output(clock, first_len, silence) + next.output(
            state.clock_after(clock, now, reported),
            second_len,
            silence,
        ) == filled(
            state.samples@,
            state.cursor * state.channels,
            first_len + second_len,
            silence,
        ),
{
    let ch = state.channels as int;
    let c = state.cursor as int;
    let f = state.frames_in(first_len);
    vstd::arithmetic::div_mod::lemma_fundamental_div_mod(first_len, ch);
    assert(f * ch == first_len) by (nonlinear_arith)
        requires
            first_len == ch * (first_len / ch) + first_len % ch,
            first_len % ch == 0,
            f == first_len / ch,
    ;
    assert((c + f) * ch == c * ch + first_len) by (nonlinear_arith)
        requires
            f * ch == first_len,
    ;
    let one = state.output(clock, first_len, silence);
    let two = next.output(state.clock_after(clock, now, reported), second_len, silence);
    let whole = filled(state.samples@, c * ch, first_len + second_len, silence);
    assert(one + two =~= whole);
}

/// Only a seek clears the started flag: a callback with no seek pending keeps the clock
/// started once it is, also after the song has ended, and starts it when it is the
/// first playing one; with a seek pending, the clock is started exactly when playing.
/// So once anchored, the position keeps being reported until the next restart.
pub proof fn lemma_only_seeks_unstart<T: Copy>(
    state: StreamState<T>,
    clock: PlaybackClock,
    now: int,
    reported: int,
    later: int,
)
    ensures
        !clock.seek_pending() ==> state.clock_after(clock, now, reported).started == (clock.started
            || (clock.armed && clock.callbacks == 0)),
        clock.seek_pending() ==> state.clock_after(clock, now, reported).started == clock.armed,
        !clock.seek_pending() && clock.started ==> state.clock_after(clock, now, reported).position_at(
            later,
        ) is Some,
{
}

} // verus!
