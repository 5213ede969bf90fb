//! The playback clock: the state that the output callback and the control side share.
//!
//! The clock is anchored to the instant at which sample 0 of the song is *heard*, not to
//! how many samples were copied into the device buffer. After the first callback it
//! follows the drift of the hardware clock with a moving average whose weight is capped
//! at `1 / MAX_SMOOTHING`.
use vstd::prelude::*;

verus! {

/// Nanoseconds in one second.
pub const NANOS_PER_SECOND: u64 = 1_000_000_000;

/// Cap of the smoothing divisor: from here on the origin is an exponential moving
/// average with weight 1/32 that follows the hardware clock without jumps.
pub const MAX_SMOOTHING: u64 = 32;

/// Value of `seek_frames` that means "no seek requested".
pub const NO_SEEK: i64 = -1;

/// How long `frames` frames last at `rate` frames per second, in whole nanoseconds
/// (rounded down).
pub open spec fn frames_to_nanos(frames: int, rate: int) -> int {
    frames * (NANOS_PER_SECOND as int) / rate
}

/// `a - b`, or 0 where that would be negative.
pub open spec fn saturating_diff(a: int, b: int) -> int {
    if a > b {
        a - b
    } else {
        0
    }
}

/// The larger of two integers.
pub open spec fn max_int(a: int, b: int) -> int {
    if a >= b {
        a
    } else {
        b
    }
}

/// The smaller of two integers.
pub open spec fn min_int(a: int, b: int) -> int {
    if a <= b {
        a
    } else {
        b
    }
}

/// Divisor of the moving average for the callback that had `served` callbacks before it
/// since the last (re)start: `min(served + 1, MAX_SMOOTHING)`. It grows at first, so the
/// origin converges within a few milliseconds, then stays at `MAX_SMOOTHING`.
pub open spec fn smoothing_divisor(served: int) -> int {
    min_int(served + 1, MAX_SMOOTHING as int)
}

/// One step of the moving average: `prev + (candidate - prev) / divisor`, where the
/// division truncates toward zero.
pub open spec fn smoothed(prev: int, candidate: int, divisor: int) -> int {
    if candidate >= prev {
        prev + (candidate - prev) / divisor
    } else {
        prev - (prev - candidate) / divisor
    }
}

/// Whole nanoseconds that `frames` frames last at `rate` frames per second.
pub fn nanos_for_frames(frames: u64, rate: u64) -> (nanos: u64)
    requires
        rate > 0,
        frames * NANOS_PER_SECOND <= u64::MAX,
    ensures
        nanos == frames_to_nanos(frames as int, rate as int),
{
    frames * NANOS_PER_SECOND / rate
}

/// The divisor of the moving average after `served` callbacks since the last (re)start.
pub fn smoothing_divisor_for(served: u64) -> (divisor: u64)
    requires
        served < u64::MAX,
    ensures
        divisor == smoothing_divisor(served as int),
        1 <= divisor <= MAX_SMOOTHING,
{
    let next = served + 1;
    if next < MAX_SMOOTHING {
        next
    } else {
        MAX_SMOOTHING
    }
}

/// One step of the moving average of the origin toward `candidate`.
pub fn smooth_origin(prev: u64, candidate: u64, divisor: u64) -> (next: u64)
    requires
        divisor >= 1,
    ensures
        next == smoothed(prev as int, candidate as int, divisor as int),
{
    if candidate >= prev {
        let step = (candidate - prev) / divisor;
        assert(step <= candidate - prev) by (nonlinear_arith)
            requires
                step as int == (candidate - prev) as int / divisor as int,
                divisor >= 1,
                candidate >= prev,
        ;
        prev + step
    } else {
        let step = (prev - candidate) / divisor;
        assert(step <= prev - candidate) by (nonlinear_arith)
            requires
                step as int == (prev - candidate) as int / divisor as int,
                divisor >= 1,
                prev > candidate,
        ;
        prev - step
    }
}

/// The clock shared by the output callback and the control side.
pub struct PlaybackClock {
    /// Set when the user presses play; until then the stream outputs silence.
    pub armed: bool,
    /// `origin_nanos` holds a reliable value.
    pub started: bool,
    /// Instant (nanoseconds since the process epoch) at which sample 0 reaches the speaker.
    pub origin_nanos: u64,
    /// Callbacks served since the last (re)start, for the smoothing of the origin.
    pub callbacks: u64,
    /// The device is running and queueing audio ahead.
    pub warm: bool,
    /// Requested jump in frames; `NO_SEEK` (-1) means none. The output callback serves it.
    pub seek_frames: i64,
    /// Output latency measured at the first callback after a (re)start, in nanoseconds.
    pub output_latency_ns: u64,
    /// Manual calibration, in nanoseconds. Positive: the audio is heard late, so the
    /// reported position must lag behind.
    pub offset_ns: i64,
}

impl PlaybackClock {
    /// The clock of a stream that has just been opened: silent, nothing measured.
    pub open spec fn initial() -> PlaybackClock {
        PlaybackClock {
            armed: false,
            started: false,
            origin_nanos: 0,
            callbacks: 0,
            warm: false,
            seek_frames: NO_SEEK,
            output_latency_ns: 0,
            offset_ns: 0,
        }
    }

    /// The clock after `start`.
    pub open spec fn armed_state(self) -> PlaybackClock {
        PlaybackClock { armed: true, ..self }
    }

    /// The clock after `restart`.
    pub open spec fn rewound_state(self) -> PlaybackClock {
        PlaybackClock { seek_frames: 0, armed: true, ..self }
    }

    /// The clock after `set_offset_ns(offset)`.
    pub open spec fn with_offset(self, offset: i64) -> PlaybackClock {
        PlaybackClock { offset_ns: offset, ..self }
    }

    /// The position in nanoseconds at instant `now`, before clamping to the song:
    /// nothing until the clock has started, then `now - origin - offset`.
    pub open spec fn position_at(self, now: int) -> Option<int> {
        if self.started {
            Some(now - self.origin_nanos - self.offset_ns)
        } else {
            None
        }
    }

    /// Whether a seek is pending, to be served by the next callback.
    pub open spec fn seek_pending(self) -> bool {
        self.seek_frames >= 0
    }

    /// Callbacks served since the last (re)start, as the next callback sees them: a
    /// pending seek resets the count.
    pub open spec fn served_before(self) -> int {
        if self.seek_pending() {
            0
        } else {
            self.callbacks as int
        }
    }

    /// The clock after one output callback. `measured` is the latency computed from the
    /// frames delivered so far, `ahead` the delay until the first frame of this buffer is
    /// heard, and `candidate` the origin implied by this callback.
    pub open spec fn after_callback(self, measured: int, ahead: int, candidate: int) -> PlaybackClock {
        let served = self.served_before();
        let started = if self.seek_pending() {
            false
        } else {
            self.started
        };
        PlaybackClock {
            armed: self.armed,
            started: if self.armed && served == 0 {
                true
            } else {
                started
            },
            origin_nanos: if !self.armed {
                self.origin_nanos
            } else if served == 0 {
                candidate as u64
            } else {
                smoothed(
                    self.origin_nanos as int,
                    candidate,
                    smoothing_divisor(served),
                ) as u64
            },
            callbacks: if self.armed {
                (served + 1) as u64
            } else {
                served as u64
            },
            warm: self.warm || measured > 0,
            seek_frames: NO_SEEK,
            output_latency_ns: if self.armed && served == 0 {
                ahead as u64
            } else {
                self.output_latency_ns
            },
            offset_ns: self.offset_ns,
        }
    }

    /// A clock for a stream that has just been opened: it outputs silence until `start`.
    pub fn new() -> (clock: PlaybackClock)
        ensures
            clock == PlaybackClock::initial(),
    {
        PlaybackClock {
            armed: false,
            started: false,
            origin_nanos: 0,
            callbacks: 0,
            warm: false,
            seek_frames: NO_SEEK,
            output_latency_ns: 0,
            offset_ns: 0,
        }
    }

    /// Starts playback. It only raises a flag: the audio begins at the next callback,
    /// one buffer period later.
    pub fn start(&mut self)
        ensures
            *final(self) == old(self).armed_state(),
    {
        self.armed = true;
    }

    /// Goes back to the beginning without closing or reopening the device: the next
    /// callback moves the cursor to frame 0 and anchors the clock anew.
    pub fn restart(&mut self)
        ensures
            *final(self) == old(self).rewound_state(),
    {
        self.seek_frames = 0;
        self.armed = true;
    }

    /// Whether playback has been started.
    pub fn is_playing(&self) -> (playing: bool)
        ensures
            playing == self.armed,
    {
        self.armed
    }

    /// True once the device runs and queues audio ahead, so that `start` sounds at once.
    pub fn is_warm(&self) -> (warm: bool)
        ensures
            warm == self.warm,
    {
        self.warm
    }

    /// Sets the calibration offset, in nanoseconds.
    pub fn set_offset_ns(&mut self, offset: i64)
        ensures
            *final(self) == old(self).with_offset(offset),
    {
        self.offset_ns = offset;
    }

    /// The calibration offset, in nanoseconds.
    pub fn offset_ns(&self) -> (offset: i64)
        ensures
            offset == self.offset_ns,
    {
        self.offset_ns
    }

    /// The output latency measured at the first callback after the last (re)start.
    pub fn output_latency_ns(&self) -> (latency: u64)
        ensures
            latency == self.output_latency_ns,
    {
        self.output_latency_ns
    }

    /// Takes the pending seek request, leaving none: the value that was there.
    pub fn take_seek(&mut self) -> (seek: i64)
        ensures
            seek == old(self).seek_frames,
            *final(self) == (PlaybackClock { seek_frames: NO_SEEK, ..*old(self) }),
    {
        let seek = self.seek_frames;
        self.seek_frames = NO_SEEK;
        seek
    }

    /// The playback position at instant `now` (nanoseconds since the process epoch),
    /// before it is clamped to the song: `None` until the clock has started.
    pub fn position_nanos(&self, now: u64) -> (position: Option<i128>)
        ensures
            match position {
                Some(p) => self.position_at(now as int) == Some(p as int),
                None => self.position_at(now as int) is None,
            },
    {
        if !self.started {
            return None;
        }
        let elapsed = now as i128 - self.origin_nanos as i128 - self.offset_ns as i128;
        Some(elapsed)
    }
}

/// The moving average never overshoots: one step lands between the previous origin and
/// the candidate, no farther from the candidate than before; a divisor of 1 jumps to
/// the candidate, and a candidate equal to the origin leaves it in place.
pub proof fn lemma_smoothing_stays_between(prev: int, candidate: int, divisor: int)
    requires
        divisor >= 1,
    ensures
        min_int(prev, candidate) <= smoothed(prev, candidate, divisor) <= max_int(prev, candidate),
        (if candidate >= prev {
            candidate - smoothed(prev, candidate, divisor)
        } else {
            smoothed(prev, candidate, divisor) - candidate
        }) <= (if candidate >= prev {
            candidate - prev
        } else {
            prev - candidate
        }),
        divisor == 1 ==> smoothed(prev, candidate, divisor) == candidate,
        prev == candidate ==> smoothed(prev, candidate, divisor) == prev,
{
    if candidate >= prev {
        let d = candidate - prev;
        assert(0 <= d / divisor <= d && (divisor == 1 ==> d / divisor == d)) by (nonlinear_arith)
            requires
                d >= 0,
                divisor >= 1,
        ;
    } else {
        let d = prev - candidate;
        assert(0 <= d / divisor <= d && (divisor == 1 ==> d / divisor == d)) by (nonlinear_arith)
            requires
                d >= 0,
                divisor >= 1,
        ;
    }
}

/// The calibration offset shifts the reported position: raising the offset by `delta`
/// makes the position lag by exactly `delta`, at every instant.
pub proof fn lemma_offset_shifts_position(clock: PlaybackClock, now: int, delta: int)
    requires
        i64::MIN <= clock.offset_ns + delta <= i64::MAX,
        clock.started,
    ensures
        clock.with_offset((clock.offset_ns + delta) as i64).position_at(now)
            == Some(clock.position_at(now).unwrap() - delta),
{
}

/// The position is not reported before the clock has been anchored, whatever the offset.
pub proof fn lemma_no_position_before_anchor(clock: PlaybackClock, now: int, offset: i64)
    requires
        !clock.started,
    ensures
        clock.position_at(now) is None,
        clock.with_offset(offset).position_at(now) is None,
        PlaybackClock::initial().position_at(now) is None,
{
}

} // verus!
