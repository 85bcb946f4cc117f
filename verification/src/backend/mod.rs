//! What every audio backend shares: how samples lie in a buffer.
use vstd::prelude::*;

pub mod core_audio;

verus! {

/// Buffer layout indicator for audio data.
#[derive(Debug, Clone, Copy, PartialEq, Eq, Structural)]
pub enum Layout {
    /// Samples are interleaved: `[L0, R0, L1, R1, ...]`.
    Interleaved,
    /// Samples are planar: `[L0, L1, ..., R0, R1, ...]`.
    NonInterleaved,
}

/// The interleaved form of the planar samples `planar`: the sample of channel `c` in frame `f`
/// stands at `f * channels + c`, taken from `c * frames + f`.
pub open spec fn interleaved<T>(planar: Seq<T>, channels: int) -> Seq<T> {
    let frames = planar.len() as int / channels;
    Seq::new(planar.len(), |i: int| planar[(i % channels) * frames + i / channels])
}

/// The planar form of the interleaved samples `mixed`: the sample of channel `c` in frame `f`
/// stands at `c * frames + f`, taken from `f * channels + c`.
pub open spec fn deinterleaved<T>(mixed: Seq<T>, channels: int) -> Seq<T> {
    let frames = mixed.len() as int / channels;
    Seq::new(mixed.len(), |i: int| mixed[(i % frames) * channels + i / frames])
}

/// What a conversion needs of its buffers: whole frames, and a scratch buffer that holds them.
/// A buffer that is empty or has a single channel is left alone and needs neither.
pub open spec fn convertible(len: int, channels: int, scratch_len: int) -> bool {
    &&& channels > 0
    &&& len > 0 && channels != 1 ==> len % channels == 0 && scratch_len >= len
}

/// What a conversion leaves in the scratch buffer: the converted samples at its front, unless
/// there was nothing to do.
pub open spec fn scratch_after<T>(scratch: Seq<T>, converted: Seq<T>, channels: int) -> Seq<T> {
    if converted.len() == 0 || channels == 1 {
        scratch
    } else {
        converted + scratch.skip(converted.len() as int)
    }
}

/// `q * d + r` with `0 <= r < d` has quotient `q` and remainder `r`, and stays below `n * d`.
proof fn lemma_position(q: int, d: int, r: int, n: int)
    requires
        0 <= q < n,
        0 <= r < d,
    ensures
        (q * d + r) / d == q,
        (q * d + r) % d == r,
        0 <= q * d + r < n * d,
        0 <= q * d,
{
    vstd::arithmetic::div_mod::lemma_fundamental_div_mod_converse(q * d + r, d, q, r);
    assert(0 <= q * d && q * d + d <= n * d) by (nonlinear_arith)
        requires
            0 <= q < n,
            0 < d,
    ;
}

/// An index below `n * d` splits into a quotient below `n` and a remainder below `d`.
proof fn lemma_split(i: int, d: int, n: int)
    requires
        0 <= i < n * d,
        0 < d,
    ensures
        0 <= i / d < n,
        0 <= i % d < d,
        i == (i / d) * d + i % d,
{
    vstd::arithmetic::div_mod::lemma_fundamental_div_mod(i, d);
    assert(i == (i / d) * d + i % d) by (nonlinear_arith)
        requires
            i == d * (i / d) + i % d,
    ;
    assert(0 <= i / d < n) by (nonlinear_arith)
        requires
            0 <= i < n * d,
            0 < d,
            i == (i / d) * d + i % d,
            0 <= i % d < d,
    ;
}

/// A length that `channels` divides is `channels` times the number of frames.
proof fn lemma_frames(len: int, channels: int)
    requires
        0 <= len,
        0 < channels,
        len % channels == 0,
    ensures
        len == channels * (len / channels),
        len == (len / channels) * channels,
        0 <= len / channels,
        len > 0 ==> len / channels > 0,
{
    vstd::arithmetic::div_mod::lemma_fundamental_div_mod(len, channels);
    vstd::arithmetic::mul::lemma_mul_is_commutative(channels, len / channels);
    vstd::arithmetic::div_mod::lemma_div_pos_is_pos(len, channels);
}

/// With one channel, or no samples, both layouts are the same.
proof fn lemma_nothing_to_do<T>(s: Seq<T>, channels: int)
    requires
        s.len() == 0 || channels == 1,
    ensures
        interleaved(s, channels) == s,
        deinterleaved(s, channels) == s,
{
    assert forall|i: int| 0 <= i < s.len() implies interleaved(s, channels)[i] == s[i]
        && deinterleaved(s, channels)[i] == s[i] by {
        assert(i % 1 == 0 && i / 1 == i);
        assert(0 * s.len() == 0);
        vstd::arithmetic::div_mod::lemma_small_mod(i as nat, s.len());
        vstd::arithmetic::div_mod::lemma_basic_div(i, s.len() as int);
        assert(s.len() as int / 1 == s.len());
    }
    assert(interleaved(s, channels) =~= s);
    assert(deinterleaved(s, channels) =~= s);
}

/// Copies the first `dst.len()` items of `src` over `dst`.
fn copy_front<T: Copy>(dst: &mut [T], src: &[T])
    requires
        old(dst)@.len() <= src@.len(),
    ensures
        final(dst)@ == src@.take(old(dst)@.len() as int),
{
    let len: usize = dst.len();
    for i in 0..len
        invariant
            len == dst@.len(),
            len == old(dst)@.len(),
            len <= src@.len(),
            forall|j: int| 0 <= j < i ==> dst@[j] == src@[j],
    {
        dst[i] = src[i];
    }
    assert(dst@ =~= src@.take(len as int));
}

impl Layout {
    /// Converts non-interleaved (planar) data to interleaved format in place.
    ///
    /// `scratch` is a buffer at least as large as `buf`.
    pub fn interleave<T: Copy>(buf: &mut [T], channels: usize, scratch: &mut [T])
        requires
            convertible(old(buf)@.len() as int, channels as int, old(scratch)@.len() as int),
        ensures
            final(buf)@ == interleaved(old(buf)@, channels as int),
            final(scratch)@ == scratch_after(
                old(scratch)@,
                interleaved(old(buf)@, channels as int),
                channels as int,
            ),
    {
        let len: usize = buf.len();
        if len == 0 || channels == 1 {
            proof {
                lemma_nothing_to_do(buf@, channels as int);
            }
            return;
        }
        let frames: usize = len / channels;
        let ghost wanted = interleaved(buf@, channels as int);
        proof {
            lemma_frames(len as int, channels as int);
        }
        for ch in 0..channels
            invariant
                len == buf@.len(),
                buf@ == old(buf)@,
                len <= scratch@.len(),
                scratch@.len() == old(scratch)@.len(),
                len == channels * frames,
                len == frames * channels,
                frames == len as int / channels as int,
                0 < channels,
                0 < frames,
                wanted == interleaved(buf@, channels as int),
                forall|i: int|
                    0 <= i < len && i % (channels as int) < ch ==> #[trigger] scratch@[i]
                        == wanted[i],
                forall|i: int|
                    len <= i < scratch@.len() ==> #[trigger] scratch@[i] == old(scratch)@[i],
        {
            proof {
                lemma_position(ch as int, frames as int, 0, channels as int);
            }
            let src_base: usize = ch * frames;
            for f in 0..frames
                invariant
                    len == buf@.len(),
                    buf@ == old(buf)@,
                    len <= scratch@.len(),
                    scratch@.len() == old(scratch)@.len(),
                    len == channels * frames,
                    len == frames * channels,
                    frames == len as int / channels as int,
                    0 <= ch < channels,
                    0 < frames,
                    src_base == ch * frames,
                    wanted == interleaved(buf@, channels as int),
                    forall|i: int|
                        0 <= i < len && (i % (channels as int) < ch || i % (channels as int) == ch
                            && i / (channels as int) < f) ==> #[trigger] scratch@[i] == wanted[i],
                    forall|i: int|
                        len <= i < scratch@.len() ==> #[trigger] scratch@[i] == old(scratch)@[i],
            {
                proof {
                    lemma_position(f as int, channels as int, ch as int, frames as int);
                    lemma_position(ch as int, frames as int, f as int, channels as int);
                }
                let dst_idx: usize = f * channels + ch;
                let ghost before = scratch@;
                scratch[dst_idx] = buf[src_base + f];
                assert forall|i: int|
                    0 <= i < len && (i % (channels as int) < ch || i % (channels as int) == ch && i
                        / (channels as int) < f + 1) implies #[trigger] scratch@[i]
                    == wanted[i] by {
                    lemma_split(i, channels as int, frames as int);
                    if i != dst_idx {
                        assert(scratch@[i] == before[i]);
                    }
                }
            }
            assert forall|i: int|
                0 <= i < len && i % (channels as int) < ch + 1 implies #[trigger] scratch@[i]
                == wanted[i] by {
                lemma_split(i, channels as int, frames as int);
            }
        }
        assert(scratch@.take(len as int) =~= wanted);
        assert(scratch@ =~= wanted + old(scratch)@.skip(len as int));
        copy_front(buf, scratch);
    }

    /// Converts interleaved data to non-interleaved (planar) format in place.
    ///
    /// `scratch` is a buffer at least as large as `buf`.
    pub fn deinterleave<T: Copy>(buf: &mut [T], channels: usize, scratch: &mut [T])
        requires
            convertible(old(buf)@.len() as int, channels as int, old(scratch)@.len() as int),
        ensures
            final(buf)@ == deinterleaved(old(buf)@, channels as int),
            final(scratch)@ == scratch_after(
                old(scratch)@,
                deinterleaved(old(buf)@, channels as int),
                channels as int,
            ),
    {
        let len: usize = buf.len();
        if len == 0 || channels == 1 {
            proof {
                lemma_nothing_to_do(buf@, channels as int);
            }
            return;
        }
        let frames: usize = len / channels;
        let ghost wanted = deinterleaved(buf@, channels as int);
        proof {
            lemma_frames(len as int, channels as int);
        }
        for ch in 0..channels
            invariant
                len == buf@.len(),
                buf@ == old(buf)@,
                len <= scratch@.len(),
                scratch@.len() == old(scratch)@.len(),
                len == channels * frames,
                len == frames * channels,
                frames == len as int / channels as int,
                0 < channels,
                0 < frames,
                wanted == deinterleaved(buf@, channels as int),
                forall|i: int|
                    0 <= i < len && i / (frames as int) < ch ==> #[trigger] scratch@[i]
                        == wanted[i],
                forall|i: int|
                    len <= i < scratch@.len() ==> #[trigger] scratch@[i] == old(scratch)@[i],
        {
            proof {
                lemma_position(ch as int, frames as int, 0, channels as int);
            }
            let dst_base: usize = ch * frames;
            for f in 0..frames
                invariant
                    len == buf@.len(),
                    buf@ == old(buf)@,
                    len <= scratch@.len(),
                    scratch@.len() == old(scratch)@.len(),
                    len == channels * frames,
                    len == frames * channels,
                    frames == len as int / channels as int,
                    0 <= ch < channels,
                    0 < frames,
                    dst_base == ch * frames,
                    wanted == deinterleaved(buf@, channels as int),
                    forall|i: int|
                        0 <= i < len && (i / (frames as int) < ch || i / (frames as int) == ch && i
                            % (frames as int) < f) ==> #[trigger] scratch@[i] == wanted[i],
                    forall|i: int|
                        len <= i < scratch@.len() ==> #[trigger] scratch@[i] == old(scratch)@[i],
            {
                proof {
                    lemma_position(f as int, channels as int, ch as int, frames as int);
                    lemma_position(ch as int, frames as int, f as int, channels as int);
                }
                let src_idx: usize = f * channels + ch;
                let ghost before = scratch@;
                scratch[dst_base + f] = buf[src_idx];
                assert forall|i: int|
                    0 <= i < len && (i / (frames as int) < ch || i / (frames as int) == ch && i % (
                    frames as int) < f + 1) implies #[trigger] scratch@[i] == wanted[i] by {
                    lemma_split(i, frames as int, channels as int);
                    if i != dst_base + f {
                        assert(scratch@[i] == before[i]);
                    }
                }
            }
            assert forall|i: int|
                0 <= i < len && i / (frames as int) < ch + 1 implies #[trigger] scratch@[i]
                == wanted[i] by {
                lemma_split(i, frames as int, channels as int);
            }
        }
        assert forall|i: int| 0 <= i < len implies #[trigger] scratch@[i] == wanted[i] by {
            lemma_split(i, frames as int, channels as int);
        }
        assert(scratch@.take(len as int) =~= wanted);
        assert(scratch@ =~= wanted + old(scratch)@.skip(len as int));
        copy_front(buf, scratch);
    }
}

/// Both layouts hold the sample of every channel in every frame: planar data channel after
/// channel, interleaved data frame after frame.
pub proof fn law_sample_positions<T>(
    planar: Seq<T>,
    mixed: Seq<T>,
    channels: int,
    frames: int,
    channel: int,
    frame: int,
)
    requires
        planar.len() == channels * frames,
        mixed.len() == channels * frames,
        0 <= channel < channels,
        0 <= frame < frames,
    ensures
        interleaved(planar, channels)[frame * channels + channel] == planar[channel * frames
            + frame],
        deinterleaved(mixed, channels)[channel * frames + frame] == mixed[frame * channels
            + channel],
{
    assert(frames * channels == channels * frames) by (nonlinear_arith);
    lemma_position(frame, channels, channel, frames);
    lemma_position(channel, frames, frame, channels);
    vstd::arithmetic::div_mod::lemma_fundamental_div_mod_converse(
        channels * frames,
        channels,
        frames,
        0,
    );
}

/// Planar samples survive being interleaved and taken apart again.
pub proof fn law_deinterleave_undoes_interleave<T>(planar: Seq<T>, channels: int)
    requires
        channels > 0,
        planar.len() as int % channels == 0,
    ensures
        deinterleaved(interleaved(planar, channels), channels) == planar,
{
    let mixed = interleaved(planar, channels);
    let frames = planar.len() as int / channels;
    lemma_frames(planar.len() as int, channels);
    assert forall|i: int| 0 <= i < planar.len() implies deinterleaved(mixed, channels)[i]
        == planar[i] by {
        lemma_split(i, frames, channels);
        lemma_position(i % frames, channels, i / frames, frames);
    }
    assert(deinterleaved(mixed, channels) =~= planar);
}

/// Interleaved samples survive being taken apart and interleaved again.
pub proof fn law_interleave_undoes_deinterleave<T>(mixed: Seq<T>, channels: int)
    requires
        channels > 0,
        mixed.len() as int % channels == 0,
    ensures
        interleaved(deinterleaved(mixed, channels), channels) == mixed,
{
    let planar = deinterleaved(mixed, channels);
    let frames = mixed.len() as int / channels;
    lemma_frames(mixed.len() as int, channels);
    assert forall|i: int| 0 <= i < mixed.len() implies interleaved(planar, channels)[i]
        == mixed[i] by {
        lemma_split(i, channels, frames);
        lemma_position(i % channels, frames, i / channels, channels);
    }
    assert(interleaved(planar, channels) =~= mixed);
}

/// Whole frames can be converted with a scratch buffer that is as large; and a buffer that is empty
/// or has a single channel, with any.
pub proof fn law_whole_frames_are_convertible(frames: int, channels: int, scratch_len: int)
    requires
        0 <= frames,
        0 < channels,
    ensures
        scratch_len >= frames * channels ==> convertible(frames * channels, channels, scratch_len),
        convertible(0, channels, scratch_len),
        convertible(frames, 1, scratch_len),
{
    vstd::arithmetic::div_mod::lemma_mod_multiples_basic(frames, channels);
}

/// A conversion moves samples about and does nothing else: as many come out as went in, and what
/// comes out of each layout at a place is what the other has at that sample's place.
pub proof fn law_conversion_keeps_every_sample<T>(s: Seq<T>, channels: int)
    requires
        channels > 0,
        s.len() as int % channels == 0,
    ensures
        interleaved(s, channels).len() == s.len(),
        deinterleaved(s, channels).len() == s.len(),
        channels == 1 ==> interleaved(s, channels) == s && deinterleaved(s, channels) == s,
{
    if channels == 1 {
        lemma_nothing_to_do(s, channels);
    }
}

/// A conversion leaves what it wrote at the front of the scratch buffer, and the rest of it alone;
/// where there is nothing to convert, all of it.
pub proof fn law_scratch_behind_the_samples_is_untouched<T>(
    scratch: Seq<T>,
    converted: Seq<T>,
    channels: int,
    i: int,
)
    requires
        converted.len() <= scratch.len(),
        0 <= i < scratch.len(),
    ensures
        scratch_after(scratch, converted, channels).len() == scratch.len(),
        i >= converted.len() ==> scratch_after(scratch, converted, channels)[i] == scratch[i],
        i < converted.len() && channels != 1 ==> scratch_after(scratch, converted, channels)[i]
            == converted[i],
        channels == 1 ==> scratch_after(scratch, converted, channels)[i] == scratch[i],
{
}

} // verus!
