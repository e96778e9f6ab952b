//! The service engine: bookkeeping and decisions of the decode loop.
//!
//! One service drives one track: decode a packet, convert it, optionally
//! resample it, and push it into the ring, honouring the controller's
//! commands.  Decoding, the resample kernel, the thread and its sleeps
//! run outside this library; the loop around them calls in here for every
//! decision and for all sample bookkeeping.  The loop runs, per iteration:
//!
//! 1. read the controller and act on [`dispatch`]'s verdict;
//! 2. when proceeding, finish the track once [`Service::finish_ready`]
//!    says the ring has drained after the last packet;
//! 3. offer a progress event through [`Service::note_progress`];
//! 4. gate on [`Service::ready_for_packet`], which drains leftover
//!    samples first; while any remain, or the ring is full, back off
//!    instead of decoding;
//! 5. decode and convert a packet, then hand it to
//!    [`Service::push_packet`], which accounts the decoded frames and
//!    keeps whatever did not fit as the new leftover.
//!
//! The leftover buffer is drained fully before any new packet is pushed,
//! so samples reach the ring in the order they were decoded.

use vstd::prelude::*;

use std::sync::Arc;
use std::sync::atomic::Ordering;

use crate::controller::ServiceState;
use crate::models::Events;
use crate::ring::{producer_capacity, SampleProducer};
use crate::time::{PlayTime, TimeStamp};

verus! {

/// What the service loop does next, given the controller's command.
#[derive(Clone, Copy, PartialEq, Eq, Structural, Debug)]
pub enum ServiceStep {
    /// Keep producing: finish check, progress event, drain, decode, push.
    Proceed,
    /// Block until the controller leaves the paused state.
    WaitWhilePaused,
    /// Leave the loop; the track is over or was stopped.
    Exit,
    /// Reposition the source to the given second, then play on.
    HandleSeek(u64),
}

/// The service loop's reaction to each controller command.
pub fn dispatch(state: ServiceState) -> (step: ServiceStep)
    ensures
        step == match state {
            ServiceState::Playing => ServiceStep::Proceed,
            ServiceState::Paused => ServiceStep::WaitWhilePaused,
            ServiceState::Stopped => ServiceStep::Exit,
            ServiceState::Seek(t) => ServiceStep::HandleSeek(t),
        },
{
    match state {
        ServiceState::Playing => ServiceStep::Proceed,
        ServiceState::Paused => ServiceStep::WaitWhilePaused,
        ServiceState::Stopped => ServiceStep::Exit,
        ServiceState::Seek(t) => ServiceStep::HandleSeek(t),
    }
}

/// The sending half of smol's channel (the `async-channel` crate),
/// declared so it can stand in signatures and fields; opaque in here.
#[verifier::external_type_specification]
#[verifier::external_body]
#[verifier::reject_recursive_types(T)]
pub struct ExEventSender<T>(smol::channel::Sender<T>);

/// The receiving half of smol's channel, declared likewise.
#[verifier::external_type_specification]
#[verifier::external_body]
#[verifier::reject_recursive_types(T)]
pub struct ExEventReceiver<T>(smol::channel::Receiver<T>);

/// Open an event channel from the service to a subscriber.
///
/// Relies on smol's `channel::unbounded` (the `async-channel` crate): a
/// queue without capacity bound, closed once either end is dropped.
#[verifier::external_body]
pub fn event_channel() -> (pair: (smol::channel::Sender<Events>, smol::channel::Receiver<Events>)) {
    smol::channel::unbounded()
}

/// Hand an event to the channel without blocking.
///
/// Relies on smol's `Sender::try_send`: on an unbounded channel it fails
/// only once the receiving end is gone, so nothing holds of the result
/// beyond which way it went.
#[verifier::external_body]
fn try_send_event(tx: &smol::channel::Sender<Events>, e: Events) -> (ok: bool) {
    match tx.try_send(e) {
        Ok(()) => true,
        Err(_) => false,
    }
}

/// Take one event off the channel without blocking, if one is there.
///
/// Relies on smol's `Receiver::try_recv`.
#[verifier::external_body]
pub fn try_recv_event(rx: &smol::channel::Receiver<Events>) -> (e: Option<Events>) {
    match rx.try_recv() {
        Ok(v) => Some(v),
        Err(_) => None,
    }
}

/// Whether `now` lies at least a tenth of a second past the last sent
/// time `(last_sec, last_frac / den)`: a progress event is owed at most
/// every 100 milliseconds.
pub open spec fn progress_due_spec(
    last_sec: int,
    last_frac: int,
    now: TimeStamp,
    den: int,
) -> bool {
    10 * (now.seconds * den + now.frac_num) >= 10 * (last_sec * den + last_frac) + den
}

/// The per-track service engine: the producer half of the ring, the
/// leftover buffer, the shared position counters, and the event channel.
pub struct Service {
    /// Producer half of the sample ring.
    pub producer: SampleProducer,
    /// Shared position counters and track parameters.
    pub play_time: Arc<PlayTime>,
    /// Samples of the last packet that did not fit into the ring.
    pub leftover_samples: Vec<i32>,
    /// Whether the device rate differs from the track rate, so packets go
    /// through the sample-rate converter.
    pub need_resample: bool,
    /// Interleaved length every converter input is padded or chunked to;
    /// zero until the first packet fixes it.
    pub expected_sample_len: usize,
    /// Where events go once a subscriber registered.
    pub sender: Option<smol::channel::Sender<Events>>,
    /// Whether the source has reached its end.
    pub finished: bool,
    /// Whole seconds of the last progress event sent.
    pub last_sent_sec: u64,
    /// Fraction numerator of the last progress event sent, over the
    /// track's time-base denominator.
    pub last_sent_frac: u64,
}

impl Service {
    /// A usable engine: usable track parameters and a last-sent time
    /// whose fraction is a proper fraction.
    pub open spec fn wf(self) -> bool {
        &&& (*self.play_time).wf()
        &&& self.last_sent_frac < (*self.play_time).time_base.denom
    }

    /// Create a new service for one track.
    pub fn new(producer: SampleProducer, play_time: Arc<PlayTime>) -> (s: Service)
        requires
            (*play_time).wf(),
        ensures
            s.wf(),
            s.producer == producer,
            s.play_time == play_time,
            s.leftover_samples@.len() == 0,
            s.need_resample == ((*play_time).sample_rate != (*play_time).device_sample_rate),
            s.expected_sample_len == 0,
            s.sender is None,
            !s.finished,
            s.last_sent_sec == 0,
            s.last_sent_frac == 0,
    {
        let need_resample: bool = play_time.sample_rate != play_time.device_sample_rate;
        Service {
            producer,
            play_time,
            leftover_samples: Vec::new(),
            need_resample,
            expected_sample_len: 0,
            sender: None,
            finished: false,
            last_sent_sec: 0,
            last_sent_frac: 0,
        }
    }

    /// Subscribe to play events: from here on the service offers progress
    /// and finish events to the given channel.
    pub fn subscribe(self, tx: smol::channel::Sender<Events>) -> (s: Service)
        ensures
            s == (Service { sender: Some(tx), ..self }),
    {
        Service { sender: Some(tx), ..self }
    }

    /// Act on the outcome of a seek: on success, clear the leftover
    /// buffer and restart the decoded-frame counter at the position the
    /// source actually landed on; a failed seek changes nothing, and the
    /// position counter keeps its old value.
    pub fn handle_seek_result(&mut self, actual_ts: Option<u64>)
        requires
            old(self).wf(),
        ensures
            final(self).wf(),
            match actual_ts {
                Some(_) => final(self).leftover_samples@.len() == 0,
                None => final(self).leftover_samples@ == old(self).leftover_samples@,
            },
            *final(self) == (Service {
                leftover_samples: final(self).leftover_samples,
                ..*old(self)
            }),
    {
        match actual_ts {
            Some(ts) => {
                self.leftover_samples.clear();
                self.play_time.decoded_len.store(ts, Ordering::Relaxed);
            },
            None => (),
        }
    }

    /// Whether leftover samples are still waiting for ring room.
    pub fn leftover_pending(&self) -> (b: bool)
        ensures
            b == (self.leftover_samples@.len() != 0),
    {
        self.leftover_samples.len() != 0
    }

    /// Push waiting leftover samples into the ring and drop the written
    /// prefix: what remains is exactly the unwritten tail, in order.
    pub fn drain_leftover(&mut self) -> (written: usize)
        ensures
            written <= old(self).leftover_samples@.len(),
            final(self).leftover_samples@ == old(self).leftover_samples@.skip(written as int),
            producer_capacity(final(self).producer) == producer_capacity(old(self).producer),
            *final(self) == (Service {
                leftover_samples: final(self).leftover_samples,
                producer: final(self).producer,
                ..*old(self)
            }),
    {
        if self.leftover_samples.len() == 0 {
            proof {
                assert(self.leftover_samples@.skip(0) =~= self.leftover_samples@);
            }
            return 0;
        }
        let written = self.producer.push_slice(&self.leftover_samples);
        let n: usize = self.leftover_samples.len();
        let mut rest: Vec<i32> = Vec::new();
        let mut i: usize = written;
        while i < n
            invariant
                written <= i <= n,
                n == self.leftover_samples@.len(),
                rest@ =~= self.leftover_samples@.subrange(written as int, i as int),
            decreases n - i,
        {
            let v: i32 = self.leftover_samples[i];
            rest.push(v);
            i = i + 1;
        }
        proof {
            assert(rest@ =~= self.leftover_samples@.skip(written as int));
        }
        self.leftover_samples = rest;
        written
    }

    /// Account a freshly decoded packet and push it into the ring: the
    /// decoded-frame counter advances by the packet's source-rate frame
    /// count, a prefix goes into the ring, and the unwritten tail becomes
    /// the leftover buffer — exactly `samples.len() - written` samples.
    ///
    /// The leftover buffer must have been drained first, so samples keep
    /// their decode order.
    pub fn push_packet(&mut self, samples: &Vec<i32>, frames: u64) -> (written: usize)
        requires
            old(self).leftover_samples@.len() == 0,
        ensures
            written <= samples@.len(),
            final(self).leftover_samples@ == samples@.skip(written as int),
            final(self).leftover_samples@.len() == samples@.len() - written,
            producer_capacity(final(self).producer) == producer_capacity(old(self).producer),
            *final(self) == (Service {
                leftover_samples: final(self).leftover_samples,
                producer: final(self).producer,
                ..*old(self)
            }),
    {
        self.play_time.decoded_len.fetch_add(frames, Ordering::Relaxed);
        let written = self.producer.push_slice(samples);
        let n: usize = samples.len();
        let mut rest: Vec<i32> = Vec::new();
        let mut i: usize = written;
        while i < n
            invariant
                written <= i <= n,
                n == samples@.len(),
                rest@ =~= samples@.subrange(written as int, i as int),
            decreases n - i,
        {
            let v: i32 = samples[i];
            rest.push(v);
            i = i + 1;
        }
        proof {
            assert(rest@ =~= samples@.skip(written as int));
        }
        self.leftover_samples = rest;
        written
    }

    /// The loop-head gate before decoding: drain waiting leftover
    /// samples, then say whether the pipeline is ready for a new packet.
    /// Ready means the leftover buffer emptied and the ring still has
    /// room; otherwise the loop backs off and asks again later.  A `true`
    /// here establishes what [`Service::push_packet`] asks for: no
    /// leftover sample can be overtaken by a newer packet.
    pub fn ready_for_packet(&mut self) -> (ready: bool)
        ensures
            ready ==> final(self).leftover_samples@.len() == 0,
            exists|written: int|
                0 <= written <= old(self).leftover_samples@.len() && final(self).leftover_samples@
                    == old(self).leftover_samples@.skip(written),
            producer_capacity(final(self).producer) == producer_capacity(old(self).producer),
            *final(self) == (Service {
                leftover_samples: final(self).leftover_samples,
                producer: final(self).producer,
                ..*old(self)
            }),
    {
        let written = self.drain_leftover();
        proof {
            assert(0 <= written <= old(self).leftover_samples@.len() && self.leftover_samples@
                == old(self).leftover_samples@.skip(written as int));
        }
        if self.leftover_pending() {
            return false;
        }
        !self.producer.is_full()
    }

    /// Remember the fixed converter input length, set by the first packet
    /// that goes through the converter; later packets leave it alone.
    pub fn record_expected(&mut self, packet_len: usize)
        ensures
            old(self).expected_sample_len == 0 ==> final(self).expected_sample_len == packet_len,
            old(self).expected_sample_len != 0 ==> final(self).expected_sample_len == old(
                self,
            ).expected_sample_len,
            *final(self) == (Service {
                expected_sample_len: final(self).expected_sample_len,
                ..*old(self)
            }),
    {
        if self.expected_sample_len == 0 {
            self.expected_sample_len = packet_len;
        }
    }

    /// Mark that the source has reached its end; the track finishes once
    /// the ring drains.
    pub fn note_finished(&mut self)
        ensures
            *final(self) == (Service { finished: true, ..*old(self) }),
    {
        self.finished = true;
    }

    /// Whether the track is done: the source ended and the ring has
    /// drained.  The occupancy is a snapshot of a counter the callback
    /// writes, so only the positive direction is promised: a `true` means
    /// the source had ended.
    pub fn finish_ready(&self) -> (b: bool)
        ensures
            b ==> self.finished,
    {
        if !self.finished {
            return false;
        }
        let occupied: usize = self.play_time.occupied_len.load(Ordering::Relaxed);
        occupied == 0
    }

    /// Offer the finish event to the subscriber, if any.
    pub fn emit_finished(&self) -> (sent: bool)
        ensures
            self.sender is None ==> !sent,
    {
        match &self.sender {
            Some(tx) => try_send_event(tx, Events::PlayFinished),
            None => false,
        }
    }

    /// Offer a progress event for the position `now`, at most one per
    /// tenth of a second of played time.  When one is due and a
    /// subscriber listens, the last-sent time advances to `now`; a send
    /// the subscriber no longer takes drops the subscription, and the
    /// service goes on without it.
    pub fn note_progress(&mut self, now: TimeStamp) -> (sent: bool)
        requires
            old(self).wf(),
            now.frac_den == (*old(self).play_time).time_base.denom,
            now.frac_num < now.frac_den,
        ensures
            final(self).wf(),
            old(self).sender is None ==> !sent && *final(self) == *old(self),
            !progress_due_spec(
                old(self).last_sent_sec as int,
                old(self).last_sent_frac as int,
                now,
                (*old(self).play_time).time_base.denom as int,
            ) ==> !sent && *final(self) == *old(self),
            sent ==> *final(self) == (Service {
                last_sent_sec: now.seconds,
                last_sent_frac: now.frac_num,
                ..*old(self)
            }),
            !sent && old(self).sender is Some && progress_due_spec(
                old(self).last_sent_sec as int,
                old(self).last_sent_frac as int,
                now,
                (*old(self).play_time).time_base.denom as int,
            ) ==> *final(self) == (Service { sender: None, ..*old(self) }),
            final(self).leftover_samples == old(self).leftover_samples,
            final(self).finished == old(self).finished,
            final(self).expected_sample_len == old(self).expected_sample_len,
            final(self).producer == old(self).producer,
    {
        if self.sender.is_none() {
            return false;
        }
        let den: u64 = self.play_time.time_base.denom as u64;
        proof {
            vstd::arithmetic::mul::lemma_mul_upper_bound(
                now.seconds as int,
                u64::MAX as int,
                den as int,
                u32::MAX as int,
            );
            vstd::arithmetic::mul::lemma_mul_upper_bound(
                self.last_sent_sec as int,
                u64::MAX as int,
                den as int,
                u32::MAX as int,
            );
        }
        let now_total: u128 = (now.seconds as u128) * (den as u128) + (now.frac_num as u128);
        let last_total: u128 = (self.last_sent_sec as u128) * (den as u128) + (
        self.last_sent_frac as u128);
        if 10 * now_total < 10 * last_total + (den as u128) {
            return false;
        }
        let sent = match &self.sender {
            Some(tx) => try_send_event(tx, Events::PlaytimeRefresh),
            None => false,
        };
        if sent {
            self.last_sent_sec = now.seconds;
            self.last_sent_frac = now.frac_num;
        } else {
            self.sender = None;
        }
        sent
    }
}

/// Progress events are rate limited: once one was sent for the position
/// `sent_at`, no further one is due until the position has advanced by a
/// full tenth of a second.  A subscriber sees `PlaytimeRefresh` at most
/// once per 100 milliseconds of played time.
pub proof fn lemma_progress_rate_limit(sent_at: TimeStamp, later: TimeStamp, den: int)
    requires
        den >= 1,
        10 * (later.seconds * den + later.frac_num) < 10 * (sent_at.seconds * den
            + sent_at.frac_num) + den,
    ensures
        !progress_due_spec(sent_at.seconds as int, sent_at.frac_num as int, later, den),
{
}

/// What [`Service::push_packet`] leaves in the leftover buffer weighs
/// exactly the unwritten tail: pushing a packet of which `written`
/// samples entered the ring grows the (previously drained) leftover
/// buffer by `packet.len() - written` samples, and they are the packet's
/// tail in order.
pub proof fn lemma_leftover_accounting(packet: Seq<i32>, written: int)
    requires
        0 <= written <= packet.len(),
    ensures
        packet.skip(written).len() == packet.len() - written,
        forall|i: int|
            0 <= i < packet.len() - written ==> #[trigger] packet.skip(written)[i]
                == packet[written + i],
{
}

} // verus!
