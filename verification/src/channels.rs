//! Remixing interleaved audio from one channel count to another.
use vstd::prelude::*;
use vstd::arithmetic::div_mod::{
    lemma_fundamental_div_mod_converse_div, lemma_fundamental_div_mod_converse_mod,
};
use crate::clock::min_int;

verus! {

/// The input channel that feeds output channel `c` when remixing from `from` channels:
/// the same channel, or the last one the input has. A mono input feeds every channel.
pub open spec fn source_channel(c: int, from: int) -> int {
    min_int(c, from - 1)
}

/// `samples` (interleaved, `from` channels) remixed to `to` channels. With equal counts
/// the samples are kept as they are; otherwise each whole input frame gives one output
/// frame, and a trailing partial frame is dropped.
pub open spec fn remapped<T>(samples: Seq<T>, from: int, to: int) -> Seq<T> {
    if from == to {
        samples
    } else {
        Seq::new(
            ((samples.len() as int / from) * to) as nat,
            |k: int| samples[(k / to) * from + source_channel(k % to, from)],
        )
    }
}

/// Remixes interleaved `samples` from `from` channels to `to` channels. Mono is copied
/// to every output channel; otherwise each output channel takes the input channel of
/// the same index, repeating the last input channel where the output has more.
pub fn remap_channels<T: Copy>(samples: &[T], from: u16, to: u16) -> (out: Vec<T>)
    requires
        from != to ==> from > 0 && (samples@.len() as int / from as int) * to as int
            <= usize::MAX,
    ensures
        out@ == remapped(samples@, from as int, to as int),
{
    if from == to {
        return vstd::slice::slice_to_vec(samples);
    }
    let from_n = from as usize;
    let to_n = to as usize;
    let sample_count = samples.len();
    let frames = sample_count / from_n;
    let mut out: Vec<T> = Vec::with_capacity(frames * to_n);
    let ghost target = remapped(samples@, from as int, to as int);
    let mut f: usize = 0;
    while f < frames
        invariant
            from_n == from as int,
            to_n == to as int,
            from != to,
            from_n > 0,
            frames == samples@.len() as int / from_n as int,
            sample_count == samples@.len(),
            frames * to_n <= usize::MAX,
            f <= frames,
            target == remapped(samples@, from as int, to as int),
            out@.len() == f * to_n,
            forall|k: int| 0 <= k < out@.len() ==> out@[k] == target[k],
        decreases frames - f,
    {
        assert(f * to_n + to_n <= frames * to_n) by (nonlinear_arith)
            requires
                f < frames,
        ;
        assert(f * from_n + from_n <= samples@.len()) by (nonlinear_arith)
            requires
                f < frames,
                frames == samples@.len() as int / from_n as int,
                from_n > 0,
        ;
        let base = f * from_n;
        let mut c: usize = 0;
        while c < to_n
            invariant
                from_n == from as int,
                to_n == to as int,
                from != to,
                from_n > 0,
                frames == samples@.len() as int / from_n as int,
                sample_count == samples@.len(),
                f < frames,
                base == f * from_n,
                f * from_n + from_n <= samples@.len(),
                f * to_n + to_n <= frames * to_n,
                frames * to_n <= usize::MAX,
                c <= to_n,
                target == remapped(samples@, from as int, to as int),
                out@.len() == f * to_n + c,
                forall|k: int| 0 <= k < out@.len() ==> out@[k] == target[k],
            decreases to_n - c,
        {
            let channel = if from_n == 1 {
                0
            } else if c < from_n - 1 {
                c
            } else {
                from_n - 1
            };
            assert(base + channel < samples@.len()) by (nonlinear_arith)
                requires
                    base == f * from_n,
                    channel < from_n,
                    f * from_n + from_n <= samples@.len(),
            ;
            let value = samples[base + channel];
            proof {
                let k = f * to_n + c;
                lemma_fundamental_div_mod_converse_div(k, to_n as int, f as int, c as int);
                lemma_fundamental_div_mod_converse_mod(k, to_n as int, f as int, c as int);
                assert(target.len() == frames * to_n);
                assert(channel == source_channel(c as int, from_n as int));
                assert(target[k] == samples@[base + channel]);
            }
            out.push(value);
            c += 1;
        }
        assert(f * to_n + to_n == (f + 1) * to_n) by (nonlinear_arith);
        f += 1;
    }
    assert(out@ =~= target);
    out
}

/// Remixing mono to any number of channels and back gives the same samples again:
/// every output channel of a frame carries the mono sample, and the first one is what
/// the remix to mono keeps.
pub proof fn lemma_mono_round_trip<T>(samples: Seq<T>, channels: int)
    requires
        channels >= 1,
    ensures
        remapped(remapped(samples, 1, channels), channels, 1) == samples,
{
    let wide = remapped(samples, 1, channels);
    if channels != 1 {
        assert(samples.len() as int / 1 == samples.len());
        assert(wide.len() == samples.len() * channels);
        assert((samples.len() * channels) / channels == samples.len()) by (nonlinear_arith)
            requires
                channels >= 1,
        ;
        let back = remapped(wide, channels, 1);
        assert forall|k: int| 0 <= k < samples.len() implies back[k] == samples[k] by {
            assert(0 <= k * channels < samples.len() * channels) by (nonlinear_arith)
                requires
                    0 <= k < samples.len(),
                    channels >= 1,
            ;
            lemma_fundamental_div_mod_converse_div(k * channels, channels, k, 0);
            lemma_fundamental_div_mod_converse_mod(k * channels, channels, k, 0);
            assert(k / 1 == k);
            assert(k % 1 == 0);
            assert(back[k] == wide[k * channels]);
            assert(wide[k * channels] == samples[(k * channels / channels) * 1 + source_channel(
                (k * channels) % channels,
                1,
            )]);
        }
        assert(back =~= samples);
    }
}

/// Widening whole frames of `from` channels to `to >= from` channels and mixing back
/// down to `from` gives the same samples again: each input channel keeps its own place
/// in the wider frame, and the extra channels are dropped on the way back.
pub proof fn lemma_widen_round_trip<T>(samples: Seq<T>, from: int, to: int)
    requires
        0 < from <= to,
        samples.len() as int % from == 0,
    ensures
        remapped(remapped(samples, from, to), to, from) == samples,
{
    if from != to {
        let len = samples.len() as int;
        let frames = len / from;
        let wide = remapped(samples, from, to);
        vstd::arithmetic::div_mod::lemma_fundamental_div_mod(len, from);
        assert(frames >= 0) by (nonlinear_arith)
            requires
                len >= 0,
                from > 0,
                frames == len / from,
        ;
        assert((frames * to) / to == frames) by (nonlinear_arith)
            requires
                frames >= 0,
                to > 0,
        ;
        let back = remapped(wide, to, from);
        assert(back.len() == frames * from);
        assert(frames * from == len) by (nonlinear_arith)
            requires
                len == from * (len / from) + len % from,
                len % from == 0,
                frames == len / from,
        ;
        assert forall|k: int| 0 <= k < len implies back[k] == samples[k] by {
            let f = k / from;
            let c = k % from;
            vstd::arithmetic::div_mod::lemma_fundamental_div_mod(k, from);
            assert(0 <= c < from);
            assert(0 <= f < frames) by (nonlinear_arith)
                requires
                    k == from * f + c,
                    0 <= c < from,
                    0 <= k < frames * from,
                    from > 0,
            ;
            let q = f * to + c;
            assert(0 <= q < frames * to) by (nonlinear_arith)
                requires
                    0 <= f < frames,
                    0 <= c < from <= to,
                    q == f * to + c,
            ;
            lemma_fundamental_div_mod_converse_div(q, to, f, c);
            lemma_fundamental_div_mod_converse_mod(q, to, f, c);
            assert(source_channel(c, to) == c);
            assert(back[k] == wide[q]);
            assert(source_channel(c, from) == c);
            assert(f * from + c == k) by (nonlinear_arith)
                requires
                    k == from * f + c,
            ;
            assert(wide[q] == samples[f * from + c]);
        }
        assert(back =~= samples);
    }
}

/// Remixing a song to its own channel count leaves it untouched, and a remix to another
/// count holds one output frame for each whole input frame.
pub proof fn lemma_remap_shape<T>(samples: Seq<T>, from: int, to: int)
    requires
        from > 0,
        to >= 0,
    ensures
        remapped(samples, from, from) == samples,
        from != to ==> remapped(samples, from, to).len() == (samples.len() as int / from) * to,
{
    assert(samples.len() as int / from >= 0) by (nonlinear_arith)
        requires
            from > 0,
    ;
    assert((samples.len() as int / from) * to >= 0) by (nonlinear_arith)
        requires
            from > 0,
            to >= 0,
            samples.len() as int / from >= 0,
    ;
}

} // verus!
