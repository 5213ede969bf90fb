//! Decisions about the output device, taken on the configurations it reports: which
//! buffer size to ask for, and which conversions the decoded song needs so that the
//! device accepts it.
use vstd::prelude::*;

verus! {

/// Buffer size asked of the device: 256 frames at 48 kHz are about 5.3 ms of output
/// latency, where the ALSA/Pulse default can reach 40-200 ms.
pub const DESIRED_BUFFER_FRAMES: u32 = 256;

/// The buffer sizes a configuration admits.
#[derive(Clone, Copy, Debug, PartialEq, Eq, Structural)]
pub enum SupportedBufferSize {
    /// Any size from `min` to `max` frames.
    Range { min: u32, max: u32 },
    /// The backend does not say.
    Unknown,
}

/// One range of configurations the device supports.
#[derive(Clone, Copy, Debug, PartialEq, Eq, Structural)]
pub struct StreamConfigRange {
    pub channels: u16,
    pub min_sample_rate: u32,
    pub max_sample_rate: u32,
    pub buffer_size: SupportedBufferSize,
}

/// The buffer size to open the stream with.
#[derive(Clone, Copy, Debug, PartialEq, Eq, Structural)]
pub enum BufferSize {
    /// Whatever the backend chooses.
    Default,
    /// This many frames.
    Fixed(u32),
}

/// `cfg` supports `channels` channels at `rate` frames per second.
pub open spec fn accepts(cfg: StreamConfigRange, channels: u16, rate: u32) -> bool {
    cfg.channels == channels && cfg.min_sample_rate <= rate && rate <= cfg.max_sample_rate
}

/// `cfg` supports the format and says which buffer sizes it admits.
pub open spec fn offers_buffer_range(cfg: StreamConfigRange, channels: u16, rate: u32) -> bool {
    accepts(cfg, channels, rate) && cfg.buffer_size is Range
}

/// `configs[i]` is the first configuration that supports the format and gives a
/// buffer-size range.
pub open spec fn is_first_fit(configs: Seq<StreamConfigRange>, channels: u16, rate: u32, i: int) -> bool {
    &&& 0 <= i < configs.len()
    &&& offers_buffer_range(configs[i], channels, rate)
    &&& forall|j: int| 0 <= j < i ==> !offers_buffer_range(#[trigger] configs[j], channels, rate)
}

/// `value` clamped to `[lo, hi]`.
pub open spec fn clamped(value: int, lo: int, hi: int) -> int {
    if value < lo {
        lo
    } else if value > hi {
        hi
    } else {
        value
    }
}

/// The range that would be used is well formed (a clamp to an empty range panics).
pub open spec fn first_fit_ordered(configs: Seq<StreamConfigRange>, channels: u16, rate: u32) -> bool {
    forall|i: int|
        #![trigger configs[i]]
        is_first_fit(configs, channels, rate, i) ==> configs[i].buffer_size->min
            <= configs[i].buffer_size->max
}

/// Picks a small buffer within what the device admits: the desired size clamped to the
/// range of the first configuration that supports the format and gives a range, or the
/// backend's default where none does.
pub fn pick_buffer_size(configs: &Vec<StreamConfigRange>, channels: u16, sample_rate: u32) -> (size: BufferSize)
    requires
        first_fit_ordered(configs@, channels, sample_rate),
    ensures
        (size is Default) <==> (forall|i: int|
            0 <= i < configs@.len() ==> !offers_buffer_range(#[trigger] configs@[i], channels, sample_rate)),
        forall|i: int|
            #![trigger configs@[i]]
            is_first_fit(configs@, channels, sample_rate, i) ==> size == BufferSize::Fixed(
                clamped(
                    DESIRED_BUFFER_FRAMES as int,
                    configs@[i].buffer_size->min as int,
                    configs@[i].buffer_size->max as int,
                ) as u32,
            ),
{
    let mut i: usize = 0;
    while i < configs.len()
        invariant
            i <= configs@.len(),
            first_fit_ordered(configs@, channels, sample_rate),
            forall|j: int| 0 <= j < i ==> !offers_buffer_range(#[trigger] configs@[j], channels, sample_rate),
        decreases configs@.len() - i,
    {
        let cfg = configs[i];
        if cfg.channels == channels && cfg.min_sample_rate <= sample_rate && sample_rate
            <= cfg.max_sample_rate {
            if let SupportedBufferSize::Range { min, max } = cfg.buffer_size {
                assert(is_first_fit(configs@, channels, sample_rate, i as int));
                let size = if DESIRED_BUFFER_FRAMES < min {
                    min
                } else if DESIRED_BUFFER_FRAMES > max {
                    max
                } else {
                    DESIRED_BUFFER_FRAMES
                };
                assert forall|k: int|
                    #![trigger configs@[k]]
                    is_first_fit(configs@, channels, sample_rate, k) implies k == i by {
                    if k < i {
                    } else if k > i {
                        assert(!offers_buffer_range(configs@[i as int], channels, sample_rate));
                    }
                }
                return BufferSize::Fixed(size);
            }
        }
        i += 1;
    }
    BufferSize::Default
}

/// Whether the range that `pick_buffer_size` would clamp to is well formed (it always
/// is where no configuration fits).
pub fn first_fit_is_ordered(configs: &Vec<StreamConfigRange>, channels: u16, sample_rate: u32) -> (ordered: bool)
    ensures
        ordered == first_fit_ordered(configs@, channels, sample_rate),
{
    let mut i: usize = 0;
    while i < configs.len()
        invariant
            i <= configs@.len(),
            forall|j: int| 0 <= j < i ==> !offers_buffer_range(#[trigger] configs@[j], channels, sample_rate),
        decreases configs@.len() - i,
    {
        let cfg = configs[i];
        if cfg.channels == channels && cfg.min_sample_rate <= sample_rate && sample_rate
            <= cfg.max_sample_rate {
            if let SupportedBufferSize::Range { min, max } = cfg.buffer_size {
                assert(is_first_fit(configs@, channels, sample_rate, i as int));
                assert forall|k: int|
                    #![trigger configs@[k]]
                    is_first_fit(configs@, channels, sample_rate, k) implies k == i by {
                    if k > i {
                        assert(!offers_buffer_range(configs@[i as int], channels, sample_rate));
                    }
                }
                return min <= max;
            }
        }
        i += 1;
    }
    true
}

/// The buffer length the stream was opened with, in frames; 0 where the backend chose.
pub fn buffer_frames(size: BufferSize) -> (frames: u32)
    ensures
        frames == (match size {
            BufferSize::Fixed(n) => n,
            BufferSize::Default => 0,
        }),
{
    match size {
        BufferSize::Fixed(n) => n,
        BufferSize::Default => 0,
    }
}

/// Some configuration of the device has `channels` channels.
pub open spec fn has_channels(configs: Seq<StreamConfigRange>, channels: u16) -> bool {
    exists|i: int| 0 <= i < configs.len() && (#[trigger] configs[i]).channels == channels
}

/// Some configuration of the device supports `channels` channels at `rate`.
pub open spec fn supports(configs: Seq<StreamConfigRange>, channels: u16, rate: u32) -> bool {
    exists|i: int| 0 <= i < configs.len() && accepts(#[trigger] configs[i], channels, rate)
}

/// The conversions that make the decoded song acceptable to the device.
#[derive(Clone, Copy, Debug, PartialEq, Eq, Structural)]
pub struct Adaptation {
    /// Remix the channels to this count.
    pub remap_to: Option<u16>,
    /// Resample to this rate.
    pub resample_to: Option<u32>,
}

impl Adaptation {
    /// The channel count of the song after the conversions.
    pub open spec fn channels_after(self, channels: u16) -> u16 {
        match self.remap_to {
            Some(c) => c,
            None => channels,
        }
    }

    /// The rate of the song after the conversions.
    pub open spec fn rate_after(self, rate: u32) -> u32 {
        match self.resample_to {
            Some(r) => r,
            None => rate,
        }
    }
}

/// Whether the song can keep its own channel count: some configuration has it, and
/// either takes it at the song's rate or at the default rate (to which the song can be
/// resampled), or the device does not take its own default configuration either (so
/// that remixing to it would gain nothing).
pub open spec fn keeps_channels(
    configs: Seq<StreamConfigRange>,
    channels: u16,
    rate: u32,
    default_channels: u16,
    default_rate: u32,
) -> bool {
    &&& has_channels(configs, channels)
    &&& {
        ||| supports(configs, channels, rate)
        ||| supports(configs, channels, default_rate)
        ||| !supports(configs, default_channels, default_rate)
    }
}

/// The conversions for a song of `channels` channels at `rate`, so that the device accepts
/// it: the song keeps its channel count as `keeps_channels` says, and is remixed to the
/// default configuration's count otherwise; then, where no configuration takes the resulting channel count at the
/// song's rate, it is resampled to the default configuration's rate.
pub open spec fn adaptation_for(
    configs: Seq<StreamConfigRange>,
    channels: u16,
    rate: u32,
    default_channels: u16,
    default_rate: u32,
) -> Adaptation {
    let keep = keeps_channels(configs, channels, rate, default_channels, default_rate);
    let channels_after = if keep {
        channels
    } else {
        default_channels
    };
    Adaptation {
        remap_to: if keep {
            None
        } else {
            Some(default_channels)
        },
        resample_to: if supports(configs, channels_after, rate) {
            None
        } else {
            Some(default_rate)
        },
    }
}

/// Whether some configuration has `channels` channels.
pub fn any_with_channels(configs: &Vec<StreamConfigRange>, channels: u16) -> (found: bool)
    ensures
        found == has_channels(configs@, channels),
{
    let mut i: usize = 0;
    while i < configs.len()
        invariant
            i <= configs@.len(),
            forall|j: int| 0 <= j < i ==> (#[trigger] configs@[j]).channels != channels,
        decreases configs@.len() - i,
    {
        if configs[i].channels == channels {
            assert(configs@[i as int].channels == channels);
            return true;
        }
        i += 1;
    }
    false
}

/// Whether some configuration supports `channels` channels at `rate`.
pub fn any_supports(configs: &Vec<StreamConfigRange>, channels: u16, rate: u32) -> (found: bool)
    ensures
        found == supports(configs@, channels, rate),
{
    let mut i: usize = 0;
    while i < configs.len()
        invariant
            i <= configs@.len(),
            forall|j: int| 0 <= j < i ==> !accepts(#[trigger] configs@[j], channels, rate),
        decreases configs@.len() - i,
    {
        let cfg = configs[i];
        if cfg.channels == channels && rate >= cfg.min_sample_rate && rate <= cfg.max_sample_rate {
            assert(accepts(configs@[i as int], channels, rate));
            return true;
        }
        i += 1;
    }
    false
}

/// Decides how to adapt a song of `channels` channels at `sample_rate` to the device,
/// whose default configuration has `default_channels` channels at `default_rate`.
pub fn plan_adaptation(
    configs: &Vec<StreamConfigRange>,
    channels: u16,
    sample_rate: u32,
    default_channels: u16,
    default_rate: u32,
) -> (plan: Adaptation)
    ensures
        plan == adaptation_for(configs@, channels, sample_rate, default_channels, default_rate),
{
    let keep = any_with_channels(configs, channels) && (any_supports(configs, channels, sample_rate)
        || any_supports(configs, channels, default_rate) || !any_supports(
        configs,
        default_channels,
        default_rate,
    ));
    let (remap_to, channels_after) = if keep {
        (None, channels)
    } else {
        (Some(default_channels), default_channels)
    };
    let resample_to = if any_supports(configs, channels_after, sample_rate) {
        None
    } else {
        Some(default_rate)
    };
    Adaptation { remap_to, resample_to }
}

/// A song the device already accepts is played as it is; wherever the device accepts
/// its own default configuration, the adapted song is something the device accepts; and
/// where it does not, the song keeps its channel count whenever some configuration has
/// it, and is resampled to the default rate whenever no configuration takes the
/// resulting channel count at its own rate.
pub proof fn lemma_adaptation_is_accepted(
    configs: Seq<StreamConfigRange>,
    channels: u16,
    rate: u32,
    default_channels: u16,
    default_rate: u32,
)
    ensures
        supports(configs, channels, rate) ==> adaptation_for(
            configs,
            channels,
            rate,
            default_channels,
            default_rate,
        ) == (Adaptation { remap_to: None, resample_to: None }),
        ({
            let plan = adaptation_for(configs, channels, rate, default_channels, default_rate);
            supports(configs, default_channels, default_rate) ==> supports(
                configs,
                plan.channels_after(channels),
                plan.rate_after(rate),
            )
        }),
        ({
            let plan = adaptation_for(configs, channels, rate, default_channels, default_rate);
            let ch = if has_channels(configs, channels) {
                channels
            } else {
                default_channels
            };
            !supports(configs, default_channels, default_rate) ==> plan == Adaptation {
                remap_to: if has_channels(configs, channels) {
                    None
                } else {
                    Some(default_channels)
                },
                resample_to: if supports(configs, ch, rate) {
                    None
                } else {
                    Some(default_rate)
                },
            }
        }),
{
    if supports(configs, channels, rate) {
        let i = choose|i: int| 0 <= i < configs.len() && accepts(#[trigger] configs[i], channels, rate);
        assert(configs[i].channels == channels);
        assert(has_channels(configs, channels));
    }
}

/// The buffer asked for always lies within the range the chosen configuration admits,
/// and is the desired size whenever that range contains it.
pub proof fn lemma_buffer_within_range(configs: Seq<StreamConfigRange>, channels: u16, rate: u32, i: int)
    requires
        is_first_fit(configs, channels, rate, i),
        configs[i].buffer_size->min <= configs[i].buffer_size->max,
    ensures
        ({
            let lo = configs[i].buffer_size->min as int;
            let hi = configs[i].buffer_size->max as int;
            let size = clamped(DESIRED_BUFFER_FRAMES as int, lo, hi);
            &&& lo <= size <= hi
            &&& lo <= DESIRED_BUFFER_FRAMES <= hi ==> size == DESIRED_BUFFER_FRAMES
        }),
{
}

} // verus!
