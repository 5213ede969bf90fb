use electron_audio_native::channels::remap_channels;
use electron_audio_native::decoder::{
    decode_step, finish_decoding, initial_capacity, read_step, select_track, track_format,
    DecodeError, DecodeEvent, DecodedAudio, LoopMode, ReadEvent, Step, TrackInfo,
};
use electron_audio_native::device::{
    buffer_frames, pick_buffer_size, plan_adaptation, Adaptation, BufferSize, StreamConfigRange,
    SupportedBufferSize,
};

fn range(channels: u16, min_rate: u32, max_rate: u32, size: SupportedBufferSize) -> StreamConfigRange {
    StreamConfigRange { channels, min_sample_rate: min_rate, max_sample_rate: max_rate, buffer_size: size }
}

#[test]
fn remap_mono_to_stereo_duplicates() {
    assert_eq!(remap_channels(&[1, 2, 3], 1, 2), vec![1, 1, 2, 2, 3, 3]);
}

#[test]
fn remap_stereo_to_mono_takes_first_channel_and_drops_partial_frame() {
    assert_eq!(remap_channels(&[1, 2, 3, 4, 5], 2, 1), vec![1, 3]);
}

#[test]
fn remap_repeats_last_channel_when_widening() {
    assert_eq!(remap_channels(&[1, 2, 3, 4], 2, 4), vec![1, 2, 2, 2, 3, 4, 4, 4]);
    assert_eq!(remap_channels(&[1, 2, 3, 4, 5, 6], 3, 2), vec![1, 2, 4, 5]);
}

#[test]
fn remap_same_count_is_a_copy() {
    assert_eq!(remap_channels(&[1, 2, 3], 2, 2), vec![1, 2, 3]);
    assert_eq!(remap_channels(&[1.5f32, -2.0], 0, 0), vec![1.5f32, -2.0]);
    assert_eq!(remap_channels::<i32>(&[1, 2, 3], 2, 0), Vec::<i32>::new());
}

#[test]
fn remap_round_trip_through_stereo() {
    let mono = vec![4, 8, 15, 16];
    let stereo = remap_channels(&mono, 1, 2);
    assert_eq!(remap_channels(&stereo, 2, 1), mono);
}

#[test]
fn buffer_size_is_clamped_into_first_fitting_range() {
    let configs = vec![
        range(2, 8_000, 96_000, SupportedBufferSize::Unknown),
        range(1, 8_000, 96_000, SupportedBufferSize::Range { min: 16, max: 32 }),
        range(2, 8_000, 44_100, SupportedBufferSize::Range { min: 16, max: 32 }),
        range(2, 44_100, 48_000, SupportedBufferSize::Range { min: 512, max: 4096 }),
        range(2, 44_100, 48_000, SupportedBufferSize::Range { min: 64, max: 1024 }),
    ];
    assert_eq!(pick_buffer_size(&configs, 2, 48_000), BufferSize::Fixed(512));
    assert_eq!(pick_buffer_size(&configs, 1, 48_000), BufferSize::Fixed(32));
    assert_eq!(pick_buffer_size(&configs, 6, 48_000), BufferSize::Default);
    let roomy = vec![range(2, 8_000, 96_000, SupportedBufferSize::Range { min: 64, max: 1024 })];
    assert_eq!(pick_buffer_size(&roomy, 2, 48_000), BufferSize::Fixed(256));
    assert_eq!(pick_buffer_size(&Vec::new(), 2, 48_000), BufferSize::Default);
}

#[test]
fn buffer_frames_of_sizes() {
    assert_eq!(buffer_frames(BufferSize::Fixed(256)), 256);
    assert_eq!(buffer_frames(BufferSize::Default), 0);
}

#[test]
fn adaptation_only_where_needed() {
    let configs = vec![
        range(2, 44_100, 48_000, SupportedBufferSize::Unknown),
        range(6, 48_000, 48_000, SupportedBufferSize::Unknown),
    ];
    assert_eq!(
        plan_adaptation(&configs, 2, 44_100, 2, 48_000),
        Adaptation { remap_to: None, resample_to: None }
    );
    assert_eq!(
        plan_adaptation(&configs, 1, 44_100, 2, 48_000),
        Adaptation { remap_to: Some(2), resample_to: None }
    );
    assert_eq!(
        plan_adaptation(&configs, 2, 22_050, 2, 48_000),
        Adaptation { remap_to: None, resample_to: Some(48_000) }
    );
    assert_eq!(
        plan_adaptation(&configs, 6, 44_100, 2, 48_000),
        Adaptation { remap_to: None, resample_to: Some(48_000) }
    );
    assert_eq!(
        plan_adaptation(&Vec::new(), 2, 44_100, 2, 48_000),
        Adaptation { remap_to: Some(2), resample_to: Some(48_000) }
    );
}

#[test]
fn adaptation_remixes_when_the_channels_fit_at_no_usable_rate() {
    let configs = vec![
        range(2, 44_100, 44_100, SupportedBufferSize::Unknown),
        range(6, 48_000, 48_000, SupportedBufferSize::Unknown),
    ];
    assert_eq!(
        plan_adaptation(&configs, 2, 22_050, 6, 48_000),
        Adaptation { remap_to: Some(6), resample_to: Some(48_000) }
    );
    assert_eq!(
        plan_adaptation(&configs, 2, 44_100, 6, 48_000),
        Adaptation { remap_to: None, resample_to: None }
    );
    assert_eq!(
        plan_adaptation(&configs, 6, 22_050, 6, 48_000),
        Adaptation { remap_to: None, resample_to: Some(48_000) }
    );
}

#[test]
fn adaptation_keeps_channels_when_the_default_is_unsupported_too() {
    let configs = vec![
        range(2, 44_100, 44_100, SupportedBufferSize::Unknown),
        range(6, 48_000, 48_000, SupportedBufferSize::Unknown),
    ];
    assert_eq!(
        plan_adaptation(&configs, 2, 22_050, 4, 96_000),
        Adaptation { remap_to: None, resample_to: Some(96_000) }
    );
    assert_eq!(
        plan_adaptation(&configs, 1, 44_100, 4, 96_000),
        Adaptation { remap_to: Some(4), resample_to: Some(96_000) }
    );
}

#[test]
fn remap_round_trip_through_wider_frames() {
    let stereo = vec![1, 2, 3, 4, 5, 6];
    let wide = remap_channels(&stereo, 2, 5);
    assert_eq!(wide, vec![1, 2, 2, 2, 2, 3, 4, 4, 4, 4, 5, 6, 6, 6, 6]);
    assert_eq!(remap_channels(&wide, 5, 2), stereo);
    let three = vec![7, 8, 9];
    assert_eq!(remap_channels(&remap_channels(&three, 3, 4), 4, 3), three);
}

#[test]
fn frames_treat_zero_channels_as_one() {
    let audio = DecodedAudio { samples: vec![0.0f32; 10], sample_rate: 48_000, channels: 3 };
    assert_eq!(audio.frames(), 3);
    let odd = DecodedAudio { samples: vec![0i16; 10], sample_rate: 48_000, channels: 0 };
    assert_eq!(odd.frames(), 10);
}

fn track(id: u32, has_codec: bool) -> TrackInfo {
    TrackInfo { id, has_codec, sample_rate: Some(44_100), channel_count: Some(2), n_frames: None }
}

#[test]
fn first_track_with_a_codec_is_chosen() {
    let tracks = vec![track(4, false), track(7, true), track(9, true)];
    assert_eq!(select_track(&tracks), Some(1));
    assert_eq!(select_track(&vec![track(1, false)]), None);
    assert_eq!(select_track(&Vec::new()), None);
}

#[test]
fn track_format_errors_in_order() {
    let mut t = track(1, true);
    assert_eq!(track_format(&t), Ok((44_100, 2)));
    t.channel_count = None;
    assert_eq!(track_format(&t), Err(DecodeError::NoChannelInfo));
    t.sample_rate = None;
    assert_eq!(track_format(&t), Err(DecodeError::NoSampleRate));
    t.sample_rate = Some(8_000);
    t.channel_count = Some(65_537);
    assert_eq!(track_format(&t), Ok((8_000, 1)));
}

#[test]
fn capacity_from_frames_or_a_minute() {
    assert_eq!(initial_capacity(Some(1_000), 44_100, 2), 2_000);
    assert_eq!(initial_capacity(None, 44_100, 2), 5_292_000);
    assert_eq!(initial_capacity(Some(0), 44_100, 2), 0);
}

#[test]
fn strict_loop_decisions() {
    let s = LoopMode::Strict;
    assert_eq!(read_step(s, ReadEvent::Packet { track_id: 3 }, 3), Step::Decode);
    assert_eq!(read_step(s, ReadEvent::Packet { track_id: 4 }, 3), Step::Skip);
    assert_eq!(read_step(s, ReadEvent::EndOfStream, 3), Step::Finish);
    assert_eq!(read_step(s, ReadEvent::ResetRequired, 3), Step::Finish);
    assert_eq!(read_step(s, ReadEvent::Failed, 3), Step::Fail);
    assert_eq!(decode_step(s, DecodeEvent::Decoded), Step::Append);
    assert_eq!(decode_step(s, DecodeEvent::Corrupt), Step::Skip);
    assert_eq!(decode_step(s, DecodeEvent::Failed), Step::Fail);
}

#[test]
fn lenient_loop_decisions() {
    let l = LoopMode::Lenient;
    assert_eq!(read_step(l, ReadEvent::Packet { track_id: 3 }, 3), Step::Decode);
    assert_eq!(read_step(l, ReadEvent::Failed, 3), Step::Finish);
    assert_eq!(decode_step(l, DecodeEvent::Failed), Step::Skip);
    assert_eq!(decode_step(l, DecodeEvent::Corrupt), Step::Skip);
}

#[test]
fn finishing_requires_samples_when_strict() {
    let err = finish_decoding::<f32>(LoopMode::Strict, Vec::new(), 44_100, 2);
    assert!(matches!(err, Err(DecodeError::NoSamples)));
    let ok = finish_decoding::<f32>(LoopMode::Lenient, Vec::new(), 44_100, 2).ok().unwrap();
    assert_eq!(ok.samples.len(), 0);
    let audio = finish_decoding(LoopMode::Strict, vec![0.5f32, 0.25], 48_000, 1).ok().unwrap();
    assert_eq!(audio.samples, vec![0.5f32, 0.25]);
    assert_eq!(audio.sample_rate, 48_000);
    assert_eq!(audio.channels, 1);
}

#[test]
fn error_messages() {
    assert_eq!(DecodeError::NoAudioTrack.message(), "no hay track de audio");
    assert_eq!(DecodeError::NoSampleRate.message(), "sin sample rate");
    assert_eq!(DecodeError::NoChannelInfo.message(), "sin info de canales");
    assert_eq!(DecodeError::NoSamples.message(), "el archivo no contiene muestras decodificables");
}
