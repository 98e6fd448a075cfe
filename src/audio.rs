//! Layout of one audio block: the synthesizer's left and right frames written
//! into the interleaved buffer the output device asks for.
//!
//! The sample type is a parameter; so is the mono mix-down of a left/right
//! pair, which the caller supplies.
use vstd::prelude::*;

verus! {

/// Number of whole frames in a buffer of `sample_len` interleaved samples.
pub fn frame_count(sample_len: usize, channels: usize) -> (r: usize)
    requires
        channels >= 1,
    ensures
        r == sample_len / channels,
{
    sample_len / channels
}

/// What the block holds at interleaved position `k`, for a device with
/// `channels` channels: channel 0 is left and channel 1 right; further
/// channels are silent; a mono device gets the mix of the pair.
pub open spec fn sample_ok<T, F: Fn(T, T) -> T>(
    out: Seq<T>,
    k: int,
    channels: nat,
    left: Seq<T>,
    right: Seq<T>,
    silence: T,
    mix: F,
) -> bool {
    let i = k / (channels as int);
    let j = k % (channels as int);
    if channels == 1 {
        mix.ensures((left[i], right[i]), out[k])
    } else if j == 0 {
        out[k] == left[i]
    } else if j == 1 {
        out[k] == right[i]
    } else {
        out[k] == silence
    }
}

proof fn lemma_frame_in_range(k: int, n: int, channels: int)
    requires
        0 <= k < n * channels,
        channels >= 1,
        n >= 0,
    ensures
        0 <= k / channels < n,
        0 <= k % channels < channels,
{
    assert(0 <= k / channels < n) by (nonlinear_arith)
        requires
            0 <= k < n * channels,
            channels >= 1,
            n >= 0,
    ;
}

/// Writes the frames `left` / `right` into `output`, interleaved for a device
/// with `channels` channels. Every sample of the block is written.
pub fn interleave<T: Copy, F: Fn(T, T) -> T>(
    output: &mut Vec<T>,
    channels: usize,
    left: &Vec<T>,
    right: &Vec<T>,
    silence: T,
    mix: F,
)
    requires
        channels >= 1,
        left.len() == right.len(),
        old(output).len() == left.len() * channels,
        forall|a: T, b: T| mix.requires((a, b)),
    ensures
        final(output).len() == old(output).len(),
        forall|k: int|
            0 <= k < final(output).len() ==> sample_ok(
                final(output)@,
                k,
                channels as nat,
                left@,
                right@,
                silence,
                mix,
            ),
{
    let len = output.len();
    let mut k: usize = 0;
    while k < len
        invariant
            channels >= 1,
            left.len() == right.len(),
            len == output.len(),
            len == left.len() * channels,
            forall|a: T, b: T| mix.requires((a, b)),
            0 <= k <= len,
            forall|m: int|
                0 <= m < k ==> sample_ok(output@, m, channels as nat, left@, right@, silence, mix),
        decreases len - k,
    {
        proof {
            lemma_frame_in_range(k as int, left.len() as int, channels as int);
        }
        let i = k / channels;
        let j = k % channels;
        let sample = if channels == 1 {
            mix(left[i], right[i])
        } else if j == 0 {
            left[i]
        } else if j == 1 {
            right[i]
        } else {
            silence
        };
        let ghost prev = output@;
        output.set(k, sample);
        proof {
            assert forall|m: int| 0 <= m < k + 1 implies sample_ok(
                output@,
                m,
                channels as nat,
                left@,
                right@,
                silence,
                mix,
            ) by {
                if m < k {
                    assert(sample_ok(prev, m, channels as nat, left@, right@, silence, mix));
                    assert(output@[m] == prev[m]);
                }
            }
        }
        k = k + 1;
    }
}

/// Fills the whole block with silence.
pub fn fill_silence<T: Copy>(output: &mut Vec<T>, silence: T)
    ensures
        final(output).len() == old(output).len(),
        forall|k: int| 0 <= k < final(output).len() ==> final(output)[k] == silence,
{
    let len = output.len();
    let mut k: usize = 0;
    while k < len
        invariant
            len == output.len(),
            0 <= k <= len,
            forall|m: int| 0 <= m < k ==> output[m] == silence,
        decreases len - k,
    {
        output.set(k, silence);
        k = k + 1;
    }
}

/// Completes one render step. When the synthesizer produced the frames
/// (`rendered`), they are laid out as `interleave` does; when it could not
/// (a poisoned lock, an engine fault), the block is silence. Either way the
/// block keeps its `frames * channels` samples, and channels past the second
/// carry silence.
pub fn finish_block<T: Copy, F: Fn(T, T) -> T>(
    output: &mut Vec<T>,
    channels: usize,
    rendered: bool,
    left: &Vec<T>,
    right: &Vec<T>,
    silence: T,
    mix: F,
)
    requires
        channels >= 1,
        left.len() == right.len(),
        old(output).len() == left.len() * channels,
        forall|a: T, b: T| mix.requires((a, b)),
    ensures
        final(output).len() == left.len() * channels,
        forall|k: int|
            0 <= k < final(output).len() && k % (channels as int) >= 2 ==> final(output)[k]
                == silence,
        rendered ==> forall|k: int|
            0 <= k < final(output).len() ==> sample_ok(
                final(output)@,
                k,
                channels as nat,
                left@,
                right@,
                silence,
                mix,
            ),
        !rendered ==> forall|k: int| 0 <= k < final(output).len() ==> final(output)[k] == silence,
{
    if rendered {
        interleave(output, channels, left, right, silence, mix);
    } else {
        fill_silence(output, silence);
    }
    assert forall|k: int|
        0 <= k < output.len() && k % (channels as int) >= 2 implies output[k] == silence by {
        if rendered {
            assert(sample_ok(output@, k, channels as nat, left@, right@, silence, mix));
        }
    }
}

} // verus!
