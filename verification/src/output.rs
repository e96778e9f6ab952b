//! Output-side logic: device configuration policy and the callback fill.
//!
//! The device stream itself is platform work and lives outside this
//! library.  What is verified here is the policy that picks the stream's
//! sample rate from the device's supported ranges, and the arithmetic the
//! real-time callback performs: pop a prefix from the ring, zero-fill the
//! tail so a short read never replays stale samples, and scale everything
//! by the shared gain.
//!
//! Gain is a Q16 fixed-point factor in `[0, 1]`: `gain / 65536` of full
//! volume, `65536` meaning unity.  The user-interface float is rounded to
//! this grid at the edge.

use vstd::prelude::*;
use vstd::arithmetic::div_mod::{lemma_div_of0, lemma_div_pos_is_pos};
use vstd::arithmetic::mul::lemma_mul_upper_bound;

use crate::ring::SampleConsumer;

verus! {

/// Unity gain in Q16 fixed point.
pub const GAIN_ONE_Q16: u32 = 65536;

/// The Q31 sample that comes out of scaling `sample` by `gain / 65536`,
/// truncated toward zero.
pub open spec fn gain_applied(sample: int, gain: int) -> int {
    if sample >= 0 {
        (sample * gain) / 65536
    } else {
        -((-sample * gain) / 65536)
    }
}

/// Zero gain silences every sample.
pub proof fn lemma_zero_gain(sample: int)
    ensures
        gain_applied(sample, 0) == 0,
{
    if sample >= 0 {
        assert(sample * 0 == 0) by (nonlinear_arith);
        lemma_div_of0(65536);
    } else {
        assert(-sample * 0 == 0) by (nonlinear_arith);
        lemma_div_of0(65536);
    }
}

/// Unity gain leaves every sample as it was.
pub proof fn lemma_unity_gain(sample: int)
    ensures
        gain_applied(sample, GAIN_ONE_Q16 as int) == sample,
{
    if sample >= 0 {
        assert((sample * 65536) / 65536 == sample) by (nonlinear_arith);
    } else {
        assert((-sample * 65536) / 65536 == -sample) by (nonlinear_arith);
    }
}

/// Scaling by a gain in `[0, 1]` never grows a sample's magnitude.
pub proof fn lemma_gain_bounded(sample: int, gain: int)
    requires
        0 <= gain <= GAIN_ONE_Q16,
        i32::MIN <= sample <= i32::MAX,
    ensures
        if sample >= 0 {
            0 <= gain_applied(sample, gain) <= sample
        } else {
            sample <= gain_applied(sample, gain) <= 0
        },
{
    if sample >= 0 {
        lemma_mul_upper_bound(sample, sample, gain, 65536);
        assert(sample * 65536 / 65536 == sample) by (nonlinear_arith);
        vstd::arithmetic::mul::lemma_mul_nonnegative(sample, gain);
        lemma_div_pos_is_pos(sample * gain, 65536);
        vstd::arithmetic::div_mod::lemma_div_is_ordered(sample * gain, sample * 65536, 65536);
    } else {
        lemma_mul_upper_bound(-sample, -sample, gain, 65536);
        assert(-sample * 65536 / 65536 == -sample) by (nonlinear_arith);
        vstd::arithmetic::mul::lemma_mul_nonnegative(-sample, gain);
        lemma_div_pos_is_pos(-sample * gain, 65536);
        vstd::arithmetic::div_mod::lemma_div_is_ordered(-sample * gain, -sample * 65536, 65536);
    }
}

/// Scale one Q31 sample by a Q16 gain.
pub fn apply_gain(sample: i32, gain_q16: u32) -> (r: i32)
    requires
        gain_q16 <= GAIN_ONE_Q16,
    ensures
        r == gain_applied(sample as int, gain_q16 as int),
        gain_q16 == 0 ==> r == 0,
        gain_q16 == GAIN_ONE_Q16 ==> r == sample,
{
    proof {
        lemma_gain_bounded(sample as int, gain_q16 as int);
        lemma_zero_gain(sample as int);
        lemma_unity_gain(sample as int);
    }
    if sample >= 0 {
        let scaled: i64 = (sample as i64) * (gain_q16 as i64) / 65536;
        scaled as i32
    } else {
        let neg: i64 = -(sample as i64);
        let scaled: i64 = neg * (gain_q16 as i64) / 65536;
        (-scaled) as i32
    }
}

/// Scale a whole block of Q31 samples by a Q16 gain, in place.
pub fn scale_block(buf: &mut Vec<i32>, gain_q16: u32)
    requires
        gain_q16 <= GAIN_ONE_Q16,
    ensures
        final(buf)@.len() == old(buf)@.len(),
        forall|i: int|
            0 <= i < final(buf)@.len() ==> #[trigger] final(buf)@[i] == gain_applied(
                old(buf)@[i] as int,
                gain_q16 as int,
            ),
        gain_q16 == 0 ==> forall|i: int|
            0 <= i < final(buf)@.len() ==> #[trigger] final(buf)@[i] == 0,
{
    let n: usize = buf.len();
    let mut i: usize = 0;
    while i < n
        invariant
            gain_q16 <= GAIN_ONE_Q16,
            n == buf@.len(),
            n == old(buf)@.len(),
            i <= n,
            forall|j: int|
                0 <= j < i ==> #[trigger] buf@[j] == gain_applied(
                    old(buf)@[j] as int,
                    gain_q16 as int,
                ),
            forall|j: int| i <= j < n ==> #[trigger] buf@[j] == old(buf)@[j],
        decreases n - i,
    {
        let v: i32 = buf[i];
        buf[i] = apply_gain(v, gain_q16);
        i = i + 1;
    }
}

/// One tick of the device callback's sample work: pop up to `out_len`
/// samples from the ring, zero-fill whatever the ring could not supply,
/// and scale the block by the current gain.
///
/// Returns the block, how many samples came from the ring, and the ring
/// occupancy measured after the pop, for the shared occupancy counter.
/// Zero gain yields an all-zero block, whatever the ring held.
pub fn render_block(cons: &mut SampleConsumer, out_len: usize, gain_q16: u32) -> (r: (
    Vec<i32>,
    usize,
    usize,
))
    requires
        gain_q16 <= GAIN_ONE_Q16,
    ensures
        r.0@.len() == out_len,
        r.1 <= out_len,
        forall|i: int| r.1 <= i < out_len ==> #[trigger] r.0@[i] == 0i32,
        gain_q16 == 0 ==> forall|i: int| 0 <= i < out_len ==> #[trigger] r.0@[i] == 0i32,
        r.2 <= crate::ring::consumer_capacity(*final(cons)),
        crate::ring::consumer_capacity(*final(cons)) == crate::ring::consumer_capacity(
            *old(cons),
        ),
{
    let mut buf: Vec<i32> = Vec::new();
    let (popped, occupied) = render_into(cons, &mut buf, out_len, gain_q16);
    (buf, popped, occupied)
}

/// The same callback tick writing into a caller-owned buffer, so a
/// real-time callback can reuse one allocation across calls.
pub fn render_into(cons: &mut SampleConsumer, buf: &mut Vec<i32>, out_len: usize, gain_q16: u32)
    -> (r: (usize, usize))
    requires
        gain_q16 <= GAIN_ONE_Q16,
    ensures
        final(buf)@.len() == out_len,
        r.0 <= out_len,
        forall|i: int| r.0 <= i < out_len ==> #[trigger] final(buf)@[i] == 0i32,
        gain_q16 == 0 ==> forall|i: int| 0 <= i < out_len ==> #[trigger] final(buf)@[i] == 0i32,
        r.1 <= crate::ring::consumer_capacity(*final(cons)),
        crate::ring::consumer_capacity(*final(cons)) == crate::ring::consumer_capacity(
            *old(cons),
        ),
{
    buf.clear();
    let mut i: usize = 0;
    while i < out_len
        invariant
            i <= out_len,
            buf@.len() == i,
            forall|j: int| 0 <= j < i ==> #[trigger] buf@[j] == 0i32,
        decreases out_len - i,
    {
        buf.push(0);
        i = i + 1;
    }
    let popped = cons.pop_slice(buf);
    let occupied = cons.occupied_len();
    scale_block(buf, gain_q16);
    proof {
        assert forall|j: int| popped <= j < out_len implies #[trigger] buf@[j] == 0i32 by {
            lemma_zero_gain(0);
        }
    }
    (popped, occupied)
}

/// One supported output configuration of a device: the sample-rate range
/// it can run at.
#[derive(Clone, Copy, PartialEq, Eq, Structural, Debug)]
pub struct ConfigRange {
    pub min_rate: u32,
    pub max_rate: u32,
}

/// Whether a configuration's rate range contains `rate`.
pub open spec fn rate_supported(c: ConfigRange, rate: u32) -> bool {
    c.min_rate <= rate <= c.max_rate
}

/// Why no output configuration could be chosen.
#[derive(Clone, Copy, PartialEq, Eq, Structural, Debug)]
pub enum SinkConfigError {
    /// The device offers no output configuration at all.
    NoSupportedConfig,
}

/// Pick the stream configuration for a track whose source rate is
/// `target`: the first configuration whose range contains `target`, pinned
/// to `target`; otherwise the first configuration at its maximum rate.
/// Fails exactly when the device offers no configuration.
pub fn select_output_rate(configs: &Vec<ConfigRange>, target: u32) -> (r: Result<
    (usize, u32),
    SinkConfigError,
>)
    ensures
        match r {
            Ok(sel) => {
                &&& configs@.len() >= 1
                &&& if exists|j: int|
                    0 <= j < configs@.len() && rate_supported(#[trigger] configs@[j], target) {
                    &&& 0 <= sel.0 < configs@.len()
                    &&& rate_supported(configs@[sel.0 as int], target)
                    &&& forall|j: int|
                        0 <= j < sel.0 ==> !rate_supported(#[trigger] configs@[j], target)
                    &&& sel.1 == target
                } else {
                    &&& sel.0 == 0
                    &&& sel.1 == configs@[0].max_rate
                }
            },
            Err(SinkConfigError::NoSupportedConfig) => configs@.len() == 0,
        },
{
    let n: usize = configs.len();
    if n == 0 {
        return Err(SinkConfigError::NoSupportedConfig);
    }
    let mut i: usize = 0;
    while i < n
        invariant
            n == configs@.len(),
            i <= n,
            forall|j: int| 0 <= j < i ==> !rate_supported(#[trigger] configs@[j], target),
        decreases n - i,
    {
        let c = configs[i];
        if c.min_rate <= target && target <= c.max_rate {
            return Ok((i, target));
        }
        i = i + 1;
    }
    Ok((0, configs[0].max_rate))
}

} // verus!
