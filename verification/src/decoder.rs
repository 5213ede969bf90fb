//! The decisions of decoding a whole file to interleaved PCM: which track to decode,
//! the format it announces, how much to reserve, and what to do with each packet that
//! the container yields and each result of the decoder.
use vstd::prelude::*;

verus! {

/// Interleaved PCM ready for the device, with no conversion pending.
pub struct DecodedAudio<S> {
    pub samples: Vec<S>,
    pub sample_rate: u32,
    pub channels: u16,
}

/// `channels`, or 1 where it is 0.
pub open spec fn at_least_one(channels: u16) -> int {
    if channels == 0 {
        1
    } else {
        channels as int
    }
}

impl<S> DecodedAudio<S> {
    /// Whole frames in the samples; a channel count of 0 counts as 1.
    pub fn frames(&self) -> (frames: usize)
        ensures
            frames == self.samples@.len() as int / at_least_one(self.channels),
    {
        let channels: u16 = if self.channels == 0 {
            1
        } else {
            self.channels
        };
        self.samples.len() / (channels as usize)
    }
}

/// What the container says of one of its tracks.
#[derive(Clone, Copy, Debug, PartialEq, Eq, Structural)]
pub struct TrackInfo {
    pub id: u32,
    /// The track has a codec (it is not the null codec).
    pub has_codec: bool,
    pub sample_rate: Option<u32>,
    /// Number of channels, where the track says.
    pub channel_count: Option<usize>,
    /// Number of frames, where the track says.
    pub n_frames: Option<u64>,
}

/// Why a file could not be turned into PCM, for the reasons decided here.
#[derive(Clone, Copy, Debug, PartialEq, Eq, Structural)]
pub enum DecodeError {
    NoAudioTrack,
    NoSampleRate,
    NoChannelInfo,
    NoSamples,
}

impl DecodeError {
    /// The message shown to the user.
    pub fn message(&self) -> (text: &'static str)
        ensures
            text@ == (match *self {
                DecodeError::NoAudioTrack => "no hay track de audio"@,
                DecodeError::NoSampleRate => "sin sample rate"@,
                DecodeError::NoChannelInfo => "sin info de canales"@,
                DecodeError::NoSamples => "el archivo no contiene muestras decodificables"@,
            }),
    {
        match self {
            DecodeError::NoAudioTrack => "no hay track de audio",
            DecodeError::NoSampleRate => "sin sample rate",
            DecodeError::NoChannelInfo => "sin info de canales",
            DecodeError::NoSamples => "el archivo no contiene muestras decodificables",
        }
    }
}

/// `tracks[i]` is the first track with a codec.
pub open spec fn is_first_audio_track(tracks: Seq<TrackInfo>, i: int) -> bool {
    &&& 0 <= i < tracks.len()
    &&& tracks[i].has_codec
    &&& forall|j: int| 0 <= j < i ==> !(#[trigger] tracks[j]).has_codec
}

/// The index of the track to decode: the first one whose codec is not the null codec.
pub fn select_track(tracks: &Vec<TrackInfo>) -> (index: Option<usize>)
    ensures
        match index {
            Some(i) => is_first_audio_track(tracks@, i as int),
            None => forall|j: int| 0 <= j < tracks@.len() ==> !(#[trigger] tracks@[j]).has_codec,
        },
{
    let mut i: usize = 0;
    while i < tracks.len()
        invariant
            i <= tracks@.len(),
            forall|j: int| 0 <= j < i ==> !(#[trigger] tracks@[j]).has_codec,
        decreases tracks@.len() - i,
    {
        if tracks[i].has_codec {
            return Some(i);
        }
        i += 1;
    }
    None
}

/// The rate and channel count the track announces: an error where it lacks either (the
/// rate is looked at first). The channel count is truncated to 16 bits, as an
/// `as u16` conversion does.
pub fn track_format(track: &TrackInfo) -> (format: Result<(u32, u16), DecodeError>)
    ensures
        format == (match (track.sample_rate, track.channel_count) {
            (None, _) => Err(DecodeError::NoSampleRate),
            (Some(_), None) => Err(DecodeError::NoChannelInfo),
            (Some(rate), Some(count)) => Ok((rate, count as u16)),
        }),
{
    let rate = match track.sample_rate {
        Some(rate) => rate,
        None => return Err(DecodeError::NoSampleRate),
    };
    let count = match track.channel_count {
        Some(count) => count,
        None => return Err(DecodeError::NoChannelInfo),
    };
    Ok((rate, #[verifier::truncate] (count as u16)))
}

/// Samples to reserve before decoding, so that decoding does not reallocate dozens of
/// times: the announced frames times the channels, or a minute of audio where the
/// length is not announced.
pub open spec fn capacity_for(n_frames: Option<u64>, sample_rate: u32, channels: u16) -> int {
    match n_frames {
        Some(f) => (f as usize) * channels,
        None => sample_rate * channels * 60,
    }
}

/// Samples to reserve before decoding.
pub fn initial_capacity(n_frames: Option<u64>, sample_rate: u32, channels: u16) -> (capacity: usize)
    requires
        capacity_for(n_frames, sample_rate, channels) <= usize::MAX,
    ensures
        capacity == capacity_for(n_frames, sample_rate, channels),
{
    match n_frames {
        Some(f) => {
            let frames = #[verifier::truncate] (f as usize);
            frames * (channels as usize)
        },
        None => {
            assert(sample_rate * channels <= sample_rate * channels * 60) by (nonlinear_arith);
            (sample_rate as usize) * (channels as usize) * 60
        },
    }
}

/// How strictly the decoding loop treats failures.
#[derive(Clone, Copy, Debug, PartialEq, Eq, Structural)]
pub enum LoopMode {
    /// A read failure other than the end of the stream, or a decoder failure other than
    /// a corrupt packet, fails the whole load; a load with no samples fails too.
    Strict,
    /// Any read failure ends the stream and any decoder failure skips the packet.
    Lenient,
}

/// What reading the next packet gave.
#[derive(Clone, Copy, Debug, PartialEq, Eq, Structural)]
pub enum ReadEvent {
    /// A packet of the track `track_id`.
    Packet { track_id: u32 },
    /// The stream ended (an I/O error of kind "unexpected end of file").
    EndOfStream,
    /// The reader asks to be reset (a new stream begins).
    ResetRequired,
    /// Any other failure.
    Failed,
}

/// What decoding a packet gave.
#[derive(Clone, Copy, Debug, PartialEq, Eq, Structural)]
pub enum DecodeEvent {
    /// A buffer of samples.
    Decoded,
    /// The packet was corrupt.
    Corrupt,
    /// Any other failure.
    Failed,
}

/// What the loop does next.
#[derive(Clone, Copy, Debug, PartialEq, Eq, Structural)]
pub enum Step {
    /// Decode the packet just read.
    Decode,
    /// Append the decoded samples, then read on.
    Append,
    /// Drop what was read or decoded, then read on.
    Skip,
    /// Stop reading: the file is done.
    Finish,
    /// Stop with an error.
    Fail,
}

/// The step after reading a packet, for the track `track_id` being decoded.
pub open spec fn read_step_for(mode: LoopMode, event: ReadEvent, track_id: u32) -> Step {
    match event {
        ReadEvent::Packet { track_id: id } => if id == track_id {
            Step::Decode
        } else {
            Step::Skip
        },
        ReadEvent::EndOfStream | ReadEvent::ResetRequired => Step::Finish,
        ReadEvent::Failed => match mode {
            LoopMode::Strict => Step::Fail,
            LoopMode::Lenient => Step::Finish,
        },
    }
}

/// The step after decoding a packet. Lone corrupt packets never bring the whole load
/// down.
pub open spec fn decode_step_for(mode: LoopMode, event: DecodeEvent) -> Step {
    match event {
        DecodeEvent::Decoded => Step::Append,
        DecodeEvent::Corrupt => Step::Skip,
        DecodeEvent::Failed => match mode {
            LoopMode::Strict => Step::Fail,
            LoopMode::Lenient => Step::Skip,
        },
    }
}

/// Decides what to do with what reading the next packet gave.
pub fn read_step(mode: LoopMode, event: ReadEvent, track_id: u32) -> (step: Step)
    ensures
        step == read_step_for(mode, event, track_id),
        event == ReadEvent::EndOfStream ==> step == Step::Finish,
        event == (ReadEvent::Packet { track_id }) ==> step == Step::Decode,
{
    match event {
        ReadEvent::Packet { track_id: id } => if id == track_id {
            Step::Decode
        } else {
            Step::Skip
        },
        ReadEvent::EndOfStream | ReadEvent::ResetRequired => Step::Finish,
        ReadEvent::Failed => match mode {
            LoopMode::Strict => Step::Fail,
            LoopMode::Lenient => Step::Finish,
        },
    }
}

/// Decides what to do with what decoding a packet gave.
pub fn decode_step(mode: LoopMode, event: DecodeEvent) -> (step: Step)
    ensures
        step == decode_step_for(mode, event),
        event == DecodeEvent::Decoded ==> step == Step::Append,
{
    match event {
        DecodeEvent::Decoded => Step::Append,
        DecodeEvent::Corrupt => Step::Skip,
        DecodeEvent::Failed => match mode {
            LoopMode::Strict => Step::Fail,
            LoopMode::Lenient => Step::Skip,
        },
    }
}

/// Ends the loop: the decoded song, or, in strict mode, an error where nothing could be
/// decoded.
pub fn finish_decoding<S>(mode: LoopMode, samples: Vec<S>, sample_rate: u32, channels: u16) -> (result: Result<
    DecodedAudio<S>,
    DecodeError,
>)
    ensures
        match result {
            Ok(audio) => {
                &&& !(mode == LoopMode::Strict && samples@.len() == 0)
                &&& audio.samples@ == samples@
                &&& audio.sample_rate == sample_rate
                &&& audio.channels == channels
            },
            Err(e) => mode == LoopMode::Strict && samples@.len() == 0 && e == DecodeError::NoSamples,
        },
{
    let strict = match mode {
        LoopMode::Strict => true,
        LoopMode::Lenient => false,
    };
    if strict && samples.len() == 0 {
        return Err(DecodeError::NoSamples);
    }
    Ok(DecodedAudio { samples, sample_rate, channels })
}

/// A corrupt packet is skipped in either mode, packets of other tracks are skipped,
/// and the loop only fails in strict mode.
pub proof fn lemma_loop_tolerates_corruption(mode: LoopMode, read: ReadEvent, track_id: u32)
    ensures
        decode_step_for(mode, DecodeEvent::Corrupt) == Step::Skip,
        read matches ReadEvent::Packet { track_id: id } && id != track_id ==> read_step_for(
            mode,
            read,
            track_id,
        ) == Step::Skip,
        mode == LoopMode::Lenient ==> read_step_for(mode, read, track_id) != Step::Fail
            && decode_step_for(mode, DecodeEvent::Failed) != Step::Fail,
{
}

/// Nothing that decodes is ever dropped: in either loop mode, a packet of the chosen
/// track is decoded and its samples appended; packets of other tracks and corrupt
/// packets are the only ones skipped.
pub proof fn lemma_decoded_samples_are_kept(mode: LoopMode, track_id: u32, other: u32, event: DecodeEvent)
    ensures
        read_step_for(mode, ReadEvent::Packet { track_id }, track_id) == Step::Decode,
        decode_step_for(mode, DecodeEvent::Decoded) == Step::Append,
        other != track_id ==> read_step_for(mode, ReadEvent::Packet { track_id: other }, track_id)
            == Step::Skip,
        decode_step_for(mode, event) == Step::Skip ==> event != DecodeEvent::Decoded,
        decode_step_for(mode, event) == Step::Append <==> event == DecodeEvent::Decoded,
{
}

/// The loop always ends at the end of the stream and at a reset request, in either
/// mode and for any track: it never reads on past them, and never fails there.
pub proof fn lemma_stream_end_finishes(mode: LoopMode, track_id: u32, event: ReadEvent)
    ensures
        read_step_for(mode, ReadEvent::EndOfStream, track_id) == Step::Finish,
        read_step_for(mode, ReadEvent::ResetRequired, track_id) == Step::Finish,
        !(event is Packet) ==> read_step_for(mode, event, track_id) == Step::Finish
            || read_step_for(mode, event, track_id) == Step::Fail,
        read_step_for(mode, event, track_id) == Step::Fail ==> mode == LoopMode::Strict
            && event == ReadEvent::Failed,
{
}

} // verus!
