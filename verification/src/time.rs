//! Playback position.
//!
//! A [`PlayTime`] couples the immutable per-track parameters with two
//! shared counters: `decoded_len`, the source-rate frames handed to the
//! ring so far (written by the service thread), and `occupied_len`, the
//! ring occupancy in device-rate samples (written by the device callback).
//! The position is the decoded frame count minus the in-ring latency,
//! taken through the track's rational time base.  All arithmetic is exact
//! integer arithmetic; fractions of a second are kept as a rational
//! remainder over the time base denominator.

use vstd::prelude::*;
use vstd::arithmetic::div_mod::{
    lemma_div_is_ordered, lemma_div_of0, lemma_div_pos_is_pos, lemma_fundamental_div_mod,
    lemma_mod_division_less_than_divisor,
};
use vstd::arithmetic::mul::{lemma_mul_inequality, lemma_mul_nonnegative, lemma_mul_upper_bound};

use std::sync::Arc;
use std::sync::atomic::{AtomicU64, AtomicUsize, Ordering};

verus! {

/// Rational conversion factor from codec ticks to seconds: one tick is
/// `numer / denom` seconds.
#[derive(Clone, Copy, PartialEq, Eq, Structural, Debug)]
pub struct TimeBase {
    pub numer: u32,
    pub denom: u32,
}

impl TimeBase {
    /// A usable time base has nonzero numerator and denominator.
    pub open spec fn wf(self) -> bool {
        self.numer >= 1 && self.denom >= 1
    }
}

/// A point in time: whole seconds plus a fraction `frac_num / frac_den`
/// of a second, with `frac_num < frac_den`.
#[derive(Clone, Copy, PartialEq, Eq, Structural, Debug)]
pub struct TimeStamp {
    pub seconds: u64,
    pub frac_num: u64,
    pub frac_den: u64,
}

/// The whole seconds that `ticks` ticks of time base `tb` come to.
pub open spec fn seconds_of(tb: TimeBase, ticks: int) -> int {
    ticks * tb.numer / tb.denom as int
}

/// The remainder of that division: the fraction numerator, over `tb.denom`.
pub open spec fn frac_of(tb: TimeBase, ticks: int) -> int {
    ticks * tb.numer % tb.denom as int
}

/// The timestamp of `ticks` ticks, when its seconds fit in a `u64`.
pub open spec fn stamp_of(tb: TimeBase, ticks: int) -> TimeStamp {
    TimeStamp {
        seconds: seconds_of(tb, ticks) as u64,
        frac_num: frac_of(tb, ticks) as u64,
        frac_den: tb.denom as u64,
    }
}

/// The timestamp of `ticks` ticks; a tick count whose seconds exceed
/// `u64::MAX` saturates to the largest representable stamp.
pub open spec fn stamp_sat_of(tb: TimeBase, ticks: int) -> TimeStamp {
    if seconds_of(tb, ticks) <= u64::MAX {
        stamp_of(tb, ticks)
    } else {
        TimeStamp { seconds: u64::MAX, frac_num: 0, frac_den: tb.denom as u64 }
    }
}

/// Convert a tick count to a timestamp over time base `tb`.
///
/// A tick count whose seconds exceed `u64::MAX` (possible only for
/// degenerate time bases) saturates to the largest representable stamp.
pub fn calc_time(tb: TimeBase, ticks: u64) -> (t: TimeStamp)
    requires
        tb.wf(),
    ensures
        t == stamp_sat_of(tb, ticks as int),
        t.frac_den == tb.denom,
        t.frac_num < t.frac_den,
{
    proof {
        lemma_mul_upper_bound(ticks as int, u64::MAX as int, tb.numer as int, u32::MAX as int);
    }
    let product: u128 = (ticks as u128) * (tb.numer as u128);
    let secs: u128 = product / (tb.denom as u128);
    let rem: u128 = product % (tb.denom as u128);
    proof {
        lemma_mod_division_less_than_divisor(product as int, tb.denom as int);
        lemma_fundamental_div_mod(product as int, tb.denom as int);
    }
    if secs > u64::MAX as u128 {
        TimeStamp { seconds: u64::MAX, frac_num: 0, frac_den: tb.denom as u64 }
    } else {
        TimeStamp { seconds: secs as u64, frac_num: rem as u64, frac_den: tb.denom as u64 }
    }
}

/// The in-ring latency in source-rate frames for a ring occupancy of
/// `occupied` device-rate samples: `(occupied / channels)` device frames,
/// rescaled by `src_rate / dst_rate`.
pub open spec fn latency_frames(occupied: int, channels: int, src_rate: int, dst_rate: int) -> int {
    (occupied / channels) * src_rate / dst_rate
}

/// The frames played out so far: decoded frames minus in-ring latency,
/// never negative.
pub open spec fn played_frames_of(decoded: int, latency: int) -> int {
    if decoded >= latency {
        decoded - latency
    } else {
        0
    }
}

/// Compute the played source-rate frames from a decoded-frame count and a
/// ring occupancy.
pub fn compute_played_frames(
    decoded: u64,
    occupied: usize,
    channels: usize,
    src_rate: u32,
    dst_rate: u32,
) -> (played: u64)
    requires
        channels >= 1,
        dst_rate >= 1,
    ensures
        played == played_frames_of(
            decoded as int,
            latency_frames(occupied as int, channels as int, src_rate as int, dst_rate as int),
        ),
{
    let device_frames: usize = occupied / channels;
    proof {
        lemma_mul_upper_bound(
            device_frames as int,
            usize::MAX as int,
            src_rate as int,
            u32::MAX as int,
        );
        lemma_mul_nonnegative(device_frames as int, src_rate as int);
    }
    let latency: u128 = (device_frames as u128) * (src_rate as u128) / (dst_rate as u128);
    if (decoded as u128) >= latency {
        decoded - (latency as u64)
    } else {
        0
    }
}

/// Immutable track parameters plus the two shared position counters.
pub struct PlayTime {
    pub time_base: TimeBase,
    pub n_frames: u64,
    pub duration_sec: u64,
    pub channels: usize,
    pub sample_rate: u32,
    pub device_sample_rate: u32,
    /// Source-rate frames handed to the ring so far; the service thread
    /// writes it, anyone may read.
    pub decoded_len: Arc<AtomicU64>,
    /// Ring occupancy in device-rate samples; the device callback writes
    /// it, anyone may read.
    pub occupied_len: Arc<AtomicUsize>,
}

/// The timestamp [`PlayTime`] reports for a decoded count and an occupancy.
pub open spec fn played_stamp_of(pt: PlayTime, decoded: int, occupied: int) -> TimeStamp {
    stamp_sat_of(
        pt.time_base,
        played_frames_of(
            decoded,
            latency_frames(
                occupied,
                pt.channels as int,
                pt.sample_rate as int,
                pt.device_sample_rate as int,
            ),
        ),
    )
}

impl PlayTime {
    /// Usable track parameters: at least one channel, nonzero rates, a
    /// usable time base, and a duration derived from the frame count.
    pub open spec fn wf(self) -> bool {
        &&& self.time_base.wf()
        &&& self.channels >= 1
        &&& self.sample_rate >= 1
        &&& self.device_sample_rate >= 1
        &&& self.duration_sec == seconds_of(self.time_base, self.n_frames as int)
        &&& seconds_of(self.time_base, self.n_frames as int) <= u64::MAX
    }

    /// Build the track parameters and take the two shared counters.
    pub fn new(
        time_base: TimeBase,
        n_frames: u64,
        channels: usize,
        sample_rate: u32,
        device_sample_rate: u32,
        decoded_len: Arc<AtomicU64>,
        occupied_len: Arc<AtomicUsize>,
    ) -> (pt: Option<PlayTime>)
        ensures
            match pt {
                Some(p) => {
                    &&& time_base.wf()
                    &&& channels >= 1
                    &&& sample_rate >= 1
                    &&& device_sample_rate >= 1
                    &&& p.wf()
                    &&& p.time_base == time_base
                    &&& p.n_frames == n_frames
                    &&& p.channels == channels
                    &&& p.sample_rate == sample_rate
                    &&& p.device_sample_rate == device_sample_rate
                },
                None => !(time_base.wf() && channels >= 1 && sample_rate >= 1
                    && device_sample_rate >= 1) || seconds_of(time_base, n_frames as int)
                    > u64::MAX,
            },
    {
        if time_base.numer < 1 || time_base.denom < 1 || channels < 1 || sample_rate < 1
            || device_sample_rate < 1 {
            return None;
        }
        proof {
            lemma_mul_upper_bound(
                n_frames as int,
                u64::MAX as int,
                time_base.numer as int,
                u32::MAX as int,
            );
        }
        let product: u128 = (n_frames as u128) * (time_base.numer as u128);
        let secs: u128 = product / (time_base.denom as u128);
        if secs > u64::MAX as u128 {
            return None;
        }
        Some(
            PlayTime {
                time_base,
                n_frames,
                duration_sec: secs as u64,
                channels,
                sample_rate,
                device_sample_rate,
                decoded_len,
                occupied_len,
            },
        )
    }

    /// The track duration as a timestamp.
    pub fn duration(&self) -> (t: TimeStamp)
        requires
            self.wf(),
        ensures
            t == stamp_of(self.time_base, self.n_frames as int),
    {
        calc_time(self.time_base, self.n_frames)
    }

    /// The track duration in whole seconds.
    pub fn duration_sec(&self) -> (s: u64)
        ensures
            s == self.duration_sec,
    {
        self.duration_sec
    }

    /// The played time for given counter values: the exact arithmetic
    /// behind [`PlayTime::played_time`].
    pub fn played_time_at(&self, decoded: u64, occupied: usize) -> (t: TimeStamp)
        requires
            self.wf(),
        ensures
            t == played_stamp_of(*self, decoded as int, occupied as int),
    {
        let played = compute_played_frames(
            decoded,
            occupied,
            self.channels,
            self.sample_rate,
            self.device_sample_rate,
        );
        calc_time(self.time_base, played)
    }

    /// The current played time, from a snapshot of the shared counters.
    ///
    /// Two threads write those counters, so all that holds of the result
    /// is that it is the exact played time of some observed counter pair.
    pub fn played_time(&self) -> (t: TimeStamp)
        requires
            self.wf(),
        ensures
            exists|decoded: u64, occupied: usize|
                t == played_stamp_of(*self, decoded as int, occupied as int),
    {
        let decoded: u64 = self.decoded_len.load(Ordering::Relaxed);
        let occupied: usize = self.occupied_len.load(Ordering::Relaxed);
        self.played_time_at(decoded, occupied)
    }

    /// The current played time in whole seconds.
    pub fn played_sec(&self) -> (s: u64)
        requires
            self.wf(),
        ensures
            exists|decoded: u64, occupied: usize|
                s == played_stamp_of(*self, decoded as int, occupied as int).seconds,
    {
        self.played_time().seconds
    }
}

/// The played frame count never exceeds the decoded frame count.
pub proof fn lemma_played_le_decoded(
    decoded: int,
    occupied: int,
    channels: int,
    src_rate: int,
    dst_rate: int,
)
    requires
        0 <= decoded,
        0 <= occupied,
        1 <= channels,
        0 <= src_rate,
        1 <= dst_rate,
    ensures
        0 <= latency_frames(occupied, channels, src_rate, dst_rate),
        0 <= played_frames_of(
            decoded,
            latency_frames(occupied, channels, src_rate, dst_rate),
        ) <= decoded,
{
    lemma_div_pos_is_pos(occupied, channels);
    lemma_mul_nonnegative(occupied / channels, src_rate);
    lemma_div_pos_is_pos((occupied / channels) * src_rate, dst_rate);
}

/// Whole seconds grow with the tick count.
pub proof fn lemma_seconds_monotone(tb: TimeBase, t1: int, t2: int)
    requires
        tb.wf(),
        t1 <= t2,
    ensures
        seconds_of(tb, t1) <= seconds_of(tb, t2),
{
    lemma_mul_inequality(t1, t2, tb.numer as int);
    lemma_div_is_ordered(t1 * tb.numer, t2 * tb.numer, tb.denom as int);
}

/// While the track is playing and no seek intervenes, the reported
/// position never moves backwards: between two observations where the
/// decoded count has not shrunk and the ring occupancy has not grown,
/// the played seconds do not decrease.
pub proof fn lemma_played_sec_monotone(
    pt: PlayTime,
    decoded1: int,
    occupied1: int,
    decoded2: int,
    occupied2: int,
)
    requires
        pt.wf(),
        0 <= decoded1 <= decoded2,
        0 <= occupied2 <= occupied1,
    ensures
        played_stamp_of(pt, decoded1, occupied1).seconds <= played_stamp_of(
            pt,
            decoded2,
            occupied2,
        ).seconds,
{
    let ch = pt.channels as int;
    let src = pt.sample_rate as int;
    let dst = pt.device_sample_rate as int;
    let l1 = latency_frames(occupied1, ch, src, dst);
    let l2 = latency_frames(occupied2, ch, src, dst);
    lemma_div_is_ordered(occupied2, occupied1, ch);
    lemma_mul_inequality(occupied2 / ch, occupied1 / ch, src);
    lemma_div_is_ordered((occupied2 / ch) * src, (occupied1 / ch) * src, dst);
    assert(l2 <= l1);
    let p1 = played_frames_of(decoded1, l1);
    let p2 = played_frames_of(decoded2, l2);
    assert(p1 <= p2);
    lemma_seconds_monotone(pt.time_base, p1, p2);
    lemma_played_le_decoded(decoded1, occupied1, ch, src, dst);
    if seconds_of(pt.time_base, p2) <= u64::MAX {
        lemma_seconds_monotone(pt.time_base, 0, p1);
    }
}

/// Right after a seek lands, with the leftover buffer cleared and the
/// decoded counter reset to the seek's actual tick position, the reported
/// position is the seek position itself once the ring has drained, and
/// never past it while the ring still holds earlier samples.
pub proof fn lemma_position_after_seek(pt: PlayTime, actual_ts: int, occupied: int)
    requires
        pt.wf(),
        0 <= actual_ts,
        0 <= occupied,
        seconds_of(pt.time_base, actual_ts) <= u64::MAX,
    ensures
        played_stamp_of(pt, actual_ts, 0) == stamp_of(pt.time_base, actual_ts),
        played_stamp_of(pt, actual_ts, occupied).seconds <= stamp_of(
            pt.time_base,
            actual_ts,
        ).seconds,
{
    let ch = pt.channels as int;
    let src = pt.sample_rate as int;
    let dst = pt.device_sample_rate as int;
    assert(latency_frames(0, ch, src, dst) == 0) by {
        vstd::arithmetic::div_mod::lemma_div_of0(ch);
        vstd::arithmetic::div_mod::lemma_div_of0(dst);
    }
    let l = latency_frames(occupied, ch, src, dst);
    let p = played_frames_of(actual_ts, l);
    assert(p <= actual_ts);
    lemma_seconds_monotone(pt.time_base, p, actual_ts);
    lemma_seconds_monotone(pt.time_base, 0, p);
}

} // verus!
