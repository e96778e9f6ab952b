//! Canonical sample conversion.
//!
//! A decoded packet arrives as planar channel data in one of the PCM sample
//! formats below.  The playback pipeline works on one canonical
//! representation: a signed 32-bit fixed-point sample with 31 fractional
//! bits (Q31), whose value `q` stands for the amplitude `q / 2^31` in
//! `[-1, +1)`.  Unsigned integer formats of bit width `n` are mapped
//! `x -> (x / 2^n) * 2 - 1`, signed integer formats of bit width `n` are
//! mapped `x -> x / 2^(n-1)`; both are exact in Q31.  Floating-point
//! formats are scaled to Q31 where the decoder runs (a lossy cast, as a
//! 64-bit float already is for a 32-bit pipeline) and pass through here
//! unchanged.
//!
//! Conversion also interleaves: the sample of frame `f`, channel `c` lands
//! at index `f * channels + c`, in the channel order the decoder reports.

use vstd::prelude::*;
use vstd::arithmetic::div_mod::{
    lemma_fundamental_div_mod_converse,
};
use vstd::arithmetic::mul::{lemma_mul_inequality, lemma_mul_is_commutative};

verus! {

/// The sample formats a decoder can hand over.
///
/// For `F32` and `F64` the raw value is already the canonical Q31 sample,
/// produced at the decoding edge.
#[derive(Clone, Copy, PartialEq, Eq, Structural, Debug)]
pub enum SampleFormat {
    U8,
    U16,
    U24,
    U32,
    S8,
    S16,
    S24,
    S32,
    F32,
    F64,
}

/// Whether `raw` is a representable raw sample of format `fmt`.
pub open spec fn raw_in_range(fmt: SampleFormat, raw: int) -> bool {
    match fmt {
        SampleFormat::U8 => 0 <= raw < 0x100,
        SampleFormat::U16 => 0 <= raw < 0x10000,
        SampleFormat::U24 => 0 <= raw < 0x1000000,
        SampleFormat::U32 => 0 <= raw < 0x100000000,
        SampleFormat::S8 => -0x80 <= raw < 0x80,
        SampleFormat::S16 => -0x8000 <= raw < 0x8000,
        SampleFormat::S24 => -0x800000 <= raw < 0x800000,
        SampleFormat::S32 => -0x80000000 <= raw < 0x80000000,
        SampleFormat::F32 => -0x80000000 <= raw < 0x80000000,
        SampleFormat::F64 => -0x80000000 <= raw < 0x80000000,
    }
}

/// The canonical Q31 sample for raw value `raw` of format `fmt`.
///
/// For an unsigned width-`n` format, `(raw / 2^n) * 2 - 1` scaled by `2^31`
/// is `raw * 2^(32-n) - 2^31`; for a signed width-`n` format,
/// `raw / 2^(n-1)` scaled by `2^31` is `raw * 2^(32-n)`.
pub open spec fn q31_of(fmt: SampleFormat, raw: int) -> int {
    match fmt {
        SampleFormat::U8 => raw * 0x1000000 - 0x80000000,
        SampleFormat::U16 => raw * 0x10000 - 0x80000000,
        SampleFormat::U24 => raw * 0x100 - 0x80000000,
        SampleFormat::U32 => raw - 0x80000000,
        SampleFormat::S8 => raw * 0x1000000,
        SampleFormat::S16 => raw * 0x10000,
        SampleFormat::S24 => raw * 0x100,
        SampleFormat::S32 => raw,
        SampleFormat::F32 => raw,
        SampleFormat::F64 => raw,
    }
}

/// Every in-range raw sample converts to a value a Q31 sample can hold.
pub proof fn lemma_q31_bounded(fmt: SampleFormat, raw: int)
    requires
        raw_in_range(fmt, raw),
    ensures
        i32::MIN <= q31_of(fmt, raw) <= i32::MAX,
{
}

/// Convert one raw sample of format `fmt` to its canonical Q31 value.
pub fn q31_convert(fmt: SampleFormat, raw: i64) -> (q: i32)
    requires
        raw_in_range(fmt, raw as int),
    ensures
        q == q31_of(fmt, raw as int),
{
    proof {
        lemma_q31_bounded(fmt, raw as int);
    }
    let wide: i64 = match fmt {
        SampleFormat::U8 => raw * 0x1000000 - 0x80000000,
        SampleFormat::U16 => raw * 0x10000 - 0x80000000,
        SampleFormat::U24 => raw * 0x100 - 0x80000000,
        SampleFormat::U32 => raw - 0x80000000,
        SampleFormat::S8 => raw * 0x1000000,
        SampleFormat::S16 => raw * 0x10000,
        SampleFormat::S24 => raw * 0x100,
        SampleFormat::S32 => raw,
        SampleFormat::F32 => raw,
        SampleFormat::F64 => raw,
    };
    wide as i32
}

/// Whether `raw` is in range for `fmt`, decided at run time.
pub fn raw_ok(fmt: SampleFormat, raw: i64) -> (b: bool)
    ensures
        b == raw_in_range(fmt, raw as int),
{
    match fmt {
        SampleFormat::U8 => 0 <= raw && raw < 0x100,
        SampleFormat::U16 => 0 <= raw && raw < 0x10000,
        SampleFormat::U24 => 0 <= raw && raw < 0x1000000,
        SampleFormat::U32 => 0 <= raw && raw < 0x100000000,
        SampleFormat::S8 => -0x80 <= raw && raw < 0x80,
        SampleFormat::S16 => -0x8000 <= raw && raw < 0x8000,
        SampleFormat::S24 => -0x800000 <= raw && raw < 0x800000,
        SampleFormat::S32 => -0x80000000 <= raw && raw < 0x80000000,
        SampleFormat::F32 => -0x80000000 <= raw && raw < 0x80000000,
        SampleFormat::F64 => -0x80000000 <= raw && raw < 0x80000000,
    }
}

/// Why a packet could not be converted.
#[derive(Clone, Copy, PartialEq, Eq, Structural, Debug)]
pub enum ConvertError {
    /// The packet reported no channels at all.
    NoChannels,
    /// The channel planes do not all hold the same number of frames.
    UnevenPlanes,
    /// The interleaved packet would not fit in an addressable vector.
    TooLong,
    /// A raw value lies outside its format's range.
    SampleOutOfRange,
}

/// All planes hold as many frames as the first one.
pub open spec fn planes_even(planes: Seq<Vec<i64>>) -> bool {
    forall|c: int| 0 <= c < planes.len() ==> (#[trigger] planes[c])@.len() == planes[0]@.len()
}

/// Every raw value of every plane is in range for `fmt`.
pub open spec fn planes_in_range(fmt: SampleFormat, planes: Seq<Vec<i64>>) -> bool {
    forall|c: int, f: int|
        0 <= c < planes.len() && 0 <= f < planes[c]@.len() ==> raw_in_range(
            fmt,
            (#[trigger] planes[c]@[f]) as int,
        )
}

/// Position `j` of the interleaved output holds the Q31 conversion of its
/// raw sample, which is in range: output index `j` draws on frame
/// `j / channels` of channel `j % channels`.
pub open spec fn sample_ok_at(
    fmt: SampleFormat,
    planes: Seq<Vec<i64>>,
    out: Seq<i32>,
    j: int,
) -> bool {
    &&& raw_in_range(fmt, planes[j % planes.len() as int]@[j / planes.len() as int] as int)
    &&& out[j] == q31_of(fmt, planes[j % planes.len() as int]@[j / planes.len() as int] as int)
}

/// The first `n` interleaved output samples are the Q31 conversions of
/// their raw samples, and those raw samples are in range.
pub open spec fn converted_prefix(
    fmt: SampleFormat,
    planes: Seq<Vec<i64>>,
    out: Seq<i32>,
    n: int,
) -> bool {
    forall|j: int| 0 <= j < n ==> #[trigger] sample_ok_at(fmt, planes, out, j)
}

/// Appending the conversion of the next raw sample extends a converted
/// prefix by one.
proof fn lemma_converted_prefix_push(
    fmt: SampleFormat,
    planes: Seq<Vec<i64>>,
    pre: Seq<i32>,
    q: i32,
    k: int,
)
    requires
        planes.len() >= 1,
        0 <= k,
        pre.len() == k,
        converted_prefix(fmt, planes, pre, k),
        raw_in_range(fmt, planes[k % planes.len() as int]@[k / planes.len() as int] as int),
        q == q31_of(fmt, planes[k % planes.len() as int]@[k / planes.len() as int] as int),
    ensures
        converted_prefix(fmt, planes, pre.push(q), k + 1),
{
    let post = pre.push(q);
    assert forall|j: int| 0 <= j < k + 1 implies #[trigger] sample_ok_at(
        fmt,
        planes,
        post,
        j,
    ) by {
        if j < k {
            assert(sample_ok_at(fmt, planes, pre, j));
            assert(post[j] == pre[j]);
        } else {
            assert(post[j] == q);
        }
    }
}

/// In an interleaving of `channels` planes of `frames` frames each, frame
/// `f` of channel `c` stands at index `f * channels + c`: the index is in
/// bounds, and dividing it back out recovers `f` and `c`.
pub proof fn lemma_frame_channel_index(channels: int, frames: int, f: int, c: int)
    requires
        1 <= channels,
        0 <= c < channels,
        0 <= f < frames,
    ensures
        0 <= f * channels + c < channels * frames,
        (f * channels + c) % channels == c,
        (f * channels + c) / channels == f,
{
    let j = f * channels + c;
    assert(0 <= f * channels) by (nonlinear_arith)
        requires
            0 <= f,
            0 <= channels,
    ;
    lemma_mul_inequality(f + 1, frames, channels);
    assert(f * channels + channels == (f + 1) * channels) by (nonlinear_arith);
    lemma_mul_is_commutative(channels, frames);
    lemma_fundamental_div_mod_converse(j, channels, f, c);
}

/// Convert a planar packet to one interleaved vector of canonical Q31
/// samples, frame by frame, channels in the order given.
///
/// Returns the samples together with the frame count.  Fails exactly when
/// the packet is malformed: no channels, ragged planes, an interleaved
/// length beyond `usize`, or a raw value outside its format's range.
pub fn convert_planar(fmt: SampleFormat, planes: &Vec<Vec<i64>>) -> (r: Result<
    (Vec<i32>, usize),
    ConvertError,
>)
    ensures
        match r {
            Ok(out) => {
                &&& planes@.len() >= 1
                &&& planes_even(planes@)
                &&& planes_in_range(fmt, planes@)
                &&& out.1 == planes@[0]@.len()
                &&& out.0@.len() == planes@.len() * planes@[0]@.len()
                &&& converted_prefix(fmt, planes@, out.0@, out.0@.len() as int)
            },
            Err(e) => match e {
                ConvertError::NoChannels => planes@.len() == 0,
                ConvertError::UnevenPlanes => planes@.len() >= 1 && !planes_even(planes@),
                ConvertError::TooLong => planes@.len() >= 1 && planes_even(planes@)
                    && planes@.len() * planes@[0]@.len() > usize::MAX,
                ConvertError::SampleOutOfRange => planes@.len() >= 1 && planes_even(planes@)
                    && planes@.len() * planes@[0]@.len() <= usize::MAX && !planes_in_range(
                    fmt,
                    planes@,
                ),
            },
        },
{
    let channels: usize = planes.len();
    if channels == 0 {
        return Err(ConvertError::NoChannels);
    }
    let frames: usize = planes[0].len();
    let mut c: usize = 0;
    while c < channels
        invariant
            channels == planes@.len(),
            frames == planes@[0]@.len(),
            c <= channels,
            forall|c2: int| 0 <= c2 < c ==> (#[trigger] planes@[c2])@.len() == frames,
        decreases channels - c,
    {
        if planes[c].len() != frames {
            return Err(ConvertError::UnevenPlanes);
        }
        c = c + 1;
    }
    let total: usize = match channels.checked_mul(frames) {
        Some(t) => t,
        None => {
            return Err(ConvertError::TooLong);
        },
    };
    let mut out: Vec<i32> = Vec::with_capacity(total);
    let mut k: usize = 0;
    while k < total
        invariant
            channels == planes@.len(),
            1 <= channels,
            frames == planes@[0]@.len(),
            planes_even(planes@),
            total == channels * frames,
            k <= total,
            out@.len() == k,
            converted_prefix(fmt, planes@, out@, k as int),
        decreases total - k,
    {
        let c: usize = k % channels;
        let f: usize = k / channels;
        proof {
            vstd::arithmetic::div_mod::lemma_fundamental_div_mod(k as int, channels as int);
            assert(f < frames) by (nonlinear_arith)
                requires
                    k as int == channels as int * (f as int) + (c as int),
                    0 <= c,
                    (k as int) < channels as int * frames as int,
                    1 <= channels as int,
                    0 <= f,
            ;
        }
        let raw: i64 = planes[c][f];
        if !raw_ok(fmt, raw) {
            return Err(ConvertError::SampleOutOfRange);
        }
        let ghost pre = out@;
        let q: i32 = q31_convert(fmt, raw);
        out.push(q);
        proof {
            assert(k as int % channels as int == c as int);
            assert(k as int / channels as int == f as int);
            lemma_converted_prefix_push(fmt, planes@, pre, q, k as int);
            assert(out@ == pre.push(q));
        }
        k = k + 1;
    }
    proof {
        lemma_converted_in_range(fmt, planes@, out@);
    }
    Ok((out, frames))
}

/// A fully converted packet only ever came from raw samples in range.
proof fn lemma_converted_in_range(fmt: SampleFormat, planes: Seq<Vec<i64>>, out: Seq<i32>)
    requires
        planes.len() >= 1,
        planes_even(planes),
        out.len() == planes.len() * planes[0]@.len(),
        converted_prefix(fmt, planes, out, out.len() as int),
    ensures
        planes_in_range(fmt, planes),
{
    assert forall|c2: int, f2: int|
        0 <= c2 < planes.len() && 0 <= f2 < planes[c2]@.len() implies raw_in_range(
        fmt,
        (planes[c2]@[f2]) as int,
    ) by {
        lemma_frame_channel_index(planes.len() as int, planes[0]@.len() as int, f2, c2);
        let j = f2 * planes.len() as int + c2;
        assert(sample_ok_at(fmt, planes, out, j));
    }
}

/// The sample of frame `f`, channel `c` stands at index `f * channels + c`
/// of the interleaved packet: the frame-and-channel reading of the
/// conversion contract.
pub proof fn lemma_interleaved_index(
    fmt: SampleFormat,
    planes: Seq<Vec<i64>>,
    out: Seq<i32>,
    f: int,
    c: int,
)
    requires
        planes.len() >= 1,
        planes_even(planes),
        out.len() == planes.len() * planes[0]@.len(),
        converted_prefix(fmt, planes, out, out.len() as int),
        0 <= c < planes.len(),
        0 <= f < planes[0]@.len(),
    ensures
        0 <= f * planes.len() + c < out.len(),
        out[f * planes.len() + c] == q31_of(fmt, planes[c]@[f] as int),
{
    lemma_frame_channel_index(planes.len() as int, planes[0]@.len() as int, f, c);
    let j = f * planes.len() + c;
    assert(sample_ok_at(fmt, planes, out, j));
}

} // verus!
