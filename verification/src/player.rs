//! The simple player: it copies the song sample after sample into each device buffer
//! and counts the samples it has handed out.
use vstd::prelude::*;
use crate::stream::{fill_from, filled};

verus! {

/// Fills `data` with the song from sample `position` on (silence once it has ended) and
/// returns the position after the buffer: every sample of the buffer counts, silence
/// included.
pub fn fill_sequential<T: Copy>(data: &mut [T], samples: &[T], position: usize, silence: T) -> (next: usize)
    requires
        position + old(data)@.len() <= usize::MAX,
    ensures
        final(data)@ == filled(samples@, position as int, old(data)@.len() as int, silence),
        next == position + old(data)@.len(),
{
    let len = data.len();
    fill_from(data, samples, position, silence);
    position + len
}

/// Frames played after `position` samples of `channels` channels.
pub fn frames_played(position: usize, channels: u16) -> (frames: usize)
    requires
        channels > 0,
    ensures
        frames == position as int / channels as int,
{
    position / (channels as usize)
}

} // verus!
