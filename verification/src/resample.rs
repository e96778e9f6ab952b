//! Around the sample-rate converter.
//!
//! The converter itself is a fixed-input-chunk FFT kernel working on
//! floating-point channel planes; it runs outside this library.  Verified
//! here is everything around that kernel: validating the conversion
//! parameters, splitting an interleaved packet into channel planes,
//! padding or chunking a packet to the fixed input length, and weaving
//! the converted planes back into one interleaved stream.

use vstd::prelude::*;
use vstd::arithmetic::div_mod::lemma_fundamental_div_mod;
use vstd::arithmetic::mul::lemma_mul_is_commutative;

use crate::sample::lemma_frame_channel_index;

verus! {

/// Why a conversion plan could not be built.
#[derive(Clone, Copy, PartialEq, Eq, Structural, Debug)]
pub enum ResampleError {
    /// A rate, the chunk size or the channel count was zero.
    BadParams,
}

/// The fixed parameters of one sample-rate conversion: `input_rate` to
/// `output_rate`, `chunk_frames` frames of `channels` channels per call.
#[derive(Clone, Copy, PartialEq, Eq, Structural, Debug)]
pub struct ResamplePlan {
    pub input_rate: usize,
    pub output_rate: usize,
    pub chunk_frames: usize,
    pub channels: usize,
}

impl ResamplePlan {
    /// Usable conversion parameters are all nonzero, and one chunk of
    /// interleaved samples fits in a vector.
    pub open spec fn wf(self) -> bool {
        &&& self.input_rate >= 1
        &&& self.output_rate >= 1
        &&& self.chunk_frames >= 1
        &&& self.channels >= 1
        &&& self.chunk_frames * self.channels <= usize::MAX
    }

    /// The interleaved samples one conversion call consumes.
    pub open spec fn chunk_len(self) -> int {
        self.chunk_frames * self.channels
    }

    /// Validate the parameters of a conversion.  Fails exactly when one
    /// of them is zero or a chunk would overflow a vector's length.
    pub fn new(input_rate: usize, output_rate: usize, chunk_frames: usize, channels: usize) -> (r:
        Result<ResamplePlan, ResampleError>)
        ensures
            match r {
                Ok(p) => {
                    &&& p == (ResamplePlan { input_rate, output_rate, chunk_frames, channels })
                    &&& p.wf()
                },
                Err(ResampleError::BadParams) => input_rate < 1 || output_rate < 1 || chunk_frames
                    < 1 || channels < 1 || chunk_frames * channels > usize::MAX,
            },
    {
        if input_rate < 1 || output_rate < 1 || chunk_frames < 1 || channels < 1 {
            return Err(ResampleError::BadParams);
        }
        match chunk_frames.checked_mul(channels) {
            Some(_) => Ok(ResamplePlan { input_rate, output_rate, chunk_frames, channels }),
            None => Err(ResampleError::BadParams),
        }
    }

    /// Whether this conversion changes the rate at all; equal rates pass
    /// samples through untouched.
    pub fn is_identity(&self) -> (b: bool)
        ensures
            b == (self.input_rate == self.output_rate),
    {
        self.input_rate == self.output_rate
    }
}

/// Plane `c` of a deinterleaving holds every `channels`-th sample,
/// starting at offset `c`.
pub open spec fn plane_ok_at(samples: Seq<i32>, planes: Seq<Vec<i32>>, c: int, f: int) -> bool {
    planes[c]@[f] == samples[f * planes.len() + c]
}

/// The first `n` entries of one channel plane are the samples of channel
/// `c`, one per frame.
pub open spec fn plane_prefix(
    samples: Seq<i32>,
    plane: Seq<i32>,
    channels: int,
    c: int,
    n: int,
) -> bool {
    forall|f: int| 0 <= f < n ==> #[trigger] plane[f] == samples[f * channels + c]
}

/// Appending the sample of the next frame extends a channel-plane prefix
/// by one.
proof fn lemma_plane_prefix_push(
    samples: Seq<i32>,
    pre: Seq<i32>,
    v: i32,
    channels: int,
    c: int,
    n: int,
)
    requires
        0 <= n,
        pre.len() == n,
        plane_prefix(samples, pre, channels, c, n),
        v == samples[n * channels + c],
    ensures
        plane_prefix(samples, pre.push(v), channels, c, n + 1),
{
    let post = pre.push(v);
    assert forall|f: int| 0 <= f < n + 1 implies #[trigger] post[f] == samples[f * channels
        + c] by {
        if f < n {
            assert(pre[f] == samples[f * channels + c]);
            assert(post[f] == pre[f]);
        } else {
            assert(post[f] == v);
        }
    }
}

/// Split an interleaved packet into its channel planes: plane `c` gets
/// the samples at indices `c, c + channels, c + 2 * channels, ...`.
pub fn deinterleave(samples: &Vec<i32>, channels: usize) -> (planes: Vec<Vec<i32>>)
    requires
        channels >= 1,
        samples@.len() as int % channels as int == 0,
    ensures
        planes@.len() == channels,
        forall|c: int|
            0 <= c < channels ==> (#[trigger] planes@[c])@.len() == samples@.len() as int / channels as int,
        forall|c: int, f: int|
            0 <= c < channels && 0 <= f < samples@.len() as int / channels as int ==> #[trigger]
            plane_ok_at(samples@, planes@, c, f),
{
    let n: usize = samples.len();
    let frames: usize = n / channels;
    proof {
        lemma_fundamental_div_mod(n as int, channels as int);
    }
    let mut planes: Vec<Vec<i32>> = Vec::with_capacity(channels);
    let mut c: usize = 0;
    while c < channels
        invariant
            channels >= 1,
            n == samples@.len(),
            frames == n as int / channels as int,
            n == channels * frames,
            c <= channels,
            planes@.len() == c,
            forall|c2: int|
                0 <= c2 < c ==> (#[trigger] planes@[c2])@.len() == frames && plane_prefix(
                    samples@,
                    planes@[c2]@,
                    channels as int,
                    c2,
                    frames as int,
                ),
        decreases channels - c,
    {
        let mut plane: Vec<i32> = Vec::with_capacity(frames);
        let mut f: usize = 0;
        while f < frames
            invariant
                channels >= 1,
                c < channels,
                n == samples@.len(),
                n == channels * frames,
                f <= frames,
                plane@.len() == f,
                plane_prefix(samples@, plane@, channels as int, c as int, f as int),
            decreases frames - f,
        {
            proof {
                lemma_frame_channel_index(channels as int, frames as int, f as int, c as int);
            }
            let idx: usize = f * channels + c;
            let ghost pre = plane@;
            let v: i32 = samples[idx];
            plane.push(v);
            proof {
                lemma_plane_prefix_push(
                    samples@,
                    pre,
                    v,
                    channels as int,
                    c as int,
                    f as int,
                );
                assert(plane@ == pre.push(v));
            }
            f = f + 1;
        }
        let ghost pre_planes = planes@;
        planes.push(plane);
        proof {
            assert forall|c2: int|
                0 <= c2 < c + 1 implies (#[trigger] planes@[c2])@.len() == frames && plane_prefix(
                samples@,
                planes@[c2]@,
                channels as int,
                c2,
                frames as int,
            ) by {
                if c2 < c {
                    assert(planes@[c2] == pre_planes[c2]);
                    assert(pre_planes[c2]@.len() == frames && plane_prefix(
                        samples@,
                        pre_planes[c2]@,
                        channels as int,
                        c2,
                        frames as int,
                    ));
                } else {
                    assert(planes@[c2] == plane);
                }
            }
        }
        c = c + 1;
    }
    proof {
        assert forall|c2: int, f: int|
            0 <= c2 < channels && 0 <= f < samples@.len() as int / channels as int implies #[trigger]
        plane_ok_at(samples@, planes@, c2, f) by {
            assert(planes@[c2]@.len() == frames && plane_prefix(
                samples@,
                planes@[c2]@,
                channels as int,
                c2,
                frames as int,
            ));
            assert(planes@[c2]@[f] == samples@[f * channels as int + c2]);
        }
    }
    planes
}

/// Position `k` of an interleaving draws on frame `k / channels` of
/// channel `k % channels`.
pub open spec fn interleave_ok_at(planes: Seq<Vec<i32>>, out: Seq<i32>, k: int) -> bool {
    out[k] == planes[k % planes.len() as int]@[k / planes.len() as int]
}

/// The first `n` samples of an interleaving are in place.
pub open spec fn interleaved_prefix(planes: Seq<Vec<i32>>, out: Seq<i32>, n: int) -> bool {
    forall|k: int| 0 <= k < n ==> #[trigger] interleave_ok_at(planes, out, k)
}

/// Appending the next sample extends an interleaved prefix by one.
proof fn lemma_interleaved_prefix_push(planes: Seq<Vec<i32>>, pre: Seq<i32>, v: i32, k: int)
    requires
        planes.len() >= 1,
        0 <= k,
        pre.len() == k,
        interleaved_prefix(planes, pre, k),
        v == planes[k % planes.len() as int]@[k / planes.len() as int],
    ensures
        interleaved_prefix(planes, pre.push(v), k + 1),
{
    let post = pre.push(v);
    assert forall|j: int| 0 <= j < k + 1 implies #[trigger] interleave_ok_at(
        planes,
        post,
        j,
    ) by {
        if j < k {
            assert(interleave_ok_at(planes, pre, j));
            assert(post[j] == pre[j]);
        } else {
            assert(post[j] == v);
        }
    }
}

/// Weave converted channel planes back into one interleaved packet: the
/// sample of frame `f`, channel `c` lands at index `f * channels + c`.
pub fn interleave(planes: &Vec<Vec<i32>>) -> (out: Vec<i32>)
    requires
        planes@.len() >= 1,
        forall|c: int|
            0 <= c < planes@.len() ==> (#[trigger] planes@[c])@.len() == planes@[0]@.len(),
        planes@.len() * planes@[0]@.len() <= usize::MAX,
    ensures
        out@.len() == planes@.len() * planes@[0]@.len(),
        interleaved_prefix(planes@, out@, out@.len() as int),
{
    let channels: usize = planes.len();
    let frames: usize = planes[0].len();
    proof {
        lemma_mul_is_commutative(channels as int, frames as int);
    }
    let total: usize = channels * frames;
    let mut out: Vec<i32> = Vec::with_capacity(total);
    let mut k: usize = 0;
    while k < total
        invariant
            channels == planes@.len(),
            channels >= 1,
            frames == planes@[0]@.len(),
            forall|c: int|
                0 <= c < channels ==> (#[trigger] planes@[c])@.len() == frames,
            total == channels * frames,
            k <= total,
            out@.len() == k,
            interleaved_prefix(planes@, out@, k as int),
        decreases total - k,
    {
        let c: usize = k % channels;
        let f: usize = k / channels;
        proof {
            lemma_fundamental_div_mod(k as int, channels as int);
            assert(f < frames) by (nonlinear_arith)
                requires
                    k as int == channels as int * (f as int) + (c as int),
                    0 <= c,
                    (k as int) < channels as int * frames as int,
                    1 <= channels as int,
                    0 <= f,
            ;
        }
        let ghost pre = out@;
        let v: i32 = planes[c][f];
        out.push(v);
        proof {
            lemma_interleaved_prefix_push(planes@, pre, v, k as int);
            assert(out@ == pre.push(v));
        }
        k = k + 1;
    }
    out
}

/// Splitting a packet into planes and weaving the planes back together
/// returns the packet unchanged: interleaving inverts deinterleaving.
pub proof fn lemma_interleave_inverts_deinterleave(
    samples: Seq<i32>,
    planes: Seq<Vec<i32>>,
    out: Seq<i32>,
    channels: int,
)
    requires
        channels >= 1,
        samples.len() as int % channels == 0,
        planes.len() == channels,
        forall|c: int|
            0 <= c < channels ==> (#[trigger] planes[c])@.len() == samples.len() as int / channels,
        forall|c: int, f: int|
            0 <= c < channels && 0 <= f < samples.len() as int / channels ==> #[trigger] plane_ok_at(
                samples,
                planes,
                c,
                f,
            ),
        out.len() == planes.len() * planes[0]@.len(),
        interleaved_prefix(planes, out, out.len() as int),
    ensures
        out =~= samples,
{
    let frames = samples.len() as int / channels;
    lemma_fundamental_div_mod(samples.len() as int, channels);
    lemma_mul_is_commutative(channels, frames);
    assert(out.len() == samples.len());
    assert forall|k: int| 0 <= k < out.len() implies out[k] == samples[k] by {
        let c = k % channels;
        let f = k / channels;
        lemma_fundamental_div_mod(k, channels);
        assert(f < frames) by (nonlinear_arith)
            requires
                k == channels * f + c,
                0 <= c,
                k < channels * frames,
                channels >= 1,
                0 <= f,
        ;
        assert(interleave_ok_at(planes, out, k));
        assert(plane_ok_at(samples, planes, c, f));
    }
}

/// Pad a packet with trailing zero samples up to `target_len`; a packet
/// already that long is left unchanged.
pub fn pad_to(samples: &mut Vec<i32>, target_len: usize)
    ensures
        old(samples)@.len() >= target_len ==> final(samples)@ == old(samples)@,
        old(samples)@.len() < target_len ==> {
            &&& final(samples)@.len() == target_len
            &&& forall|i: int|
                0 <= i < old(samples)@.len() ==> #[trigger] final(samples)@[i] == old(samples)@[i]
            &&& forall|i: int|
                old(samples)@.len() <= i < target_len ==> #[trigger] final(samples)@[i] == 0i32
        },
{
    while samples.len() < target_len
        invariant
            old(samples)@.len() >= target_len ==> samples@ == old(samples)@,
            old(samples)@.len() < target_len ==> {
                &&& old(samples)@.len() <= samples@.len() <= target_len
                &&& forall|i: int|
                    0 <= i < old(samples)@.len() ==> #[trigger] samples@[i] == old(samples)@[i]
                &&& forall|i: int|
                    old(samples)@.len() <= i < samples@.len() ==> #[trigger] samples@[i] == 0i32
            },
        decreases target_len - samples@.len(),
    {
        samples.push(0);
    }
}

/// Copy the fixed-size chunk starting at `start` out of a packet, zero
/// padded past the packet's end: the converter always gets exactly
/// `chunk_len` samples, and a packet longer than one chunk is taken in
/// slices `start = 0, chunk_len, 2 * chunk_len, ...`.
pub fn take_chunk(samples: &Vec<i32>, start: usize, chunk_len: usize) -> (chunk: Vec<i32>)
    requires
        start + chunk_len <= usize::MAX,
    ensures
        chunk@.len() == chunk_len,
        forall|j: int|
            0 <= j < chunk_len ==> #[trigger] chunk@[j] == if start + j < samples@.len() {
                samples@[start + j]
            } else {
                0i32
            },
{
    let mut chunk: Vec<i32> = Vec::with_capacity(chunk_len);
    let n: usize = samples.len();
    let mut j: usize = 0;
    while j < chunk_len
        invariant
            start + chunk_len <= usize::MAX,
            n == samples@.len(),
            j <= chunk_len,
            chunk@.len() == j,
            forall|i: int|
                0 <= i < j ==> #[trigger] chunk@[i] == if start + i < samples@.len() {
                    samples@[start + i]
                } else {
                    0i32
                },
        decreases chunk_len - j,
    {
        if start + j < n {
            chunk.push(samples[start + j]);
        } else {
            chunk.push(0);
        }
        j = j + 1;
    }
    chunk
}

} // verus!
