use std::sync::atomic::{AtomicU64, AtomicUsize, Ordering};
use std::sync::Arc;

use playback_core::models::Events;
use playback_core::output::render_block;
use playback_core::ring::ring_split;
use playback_core::service::{event_channel, try_recv_event, Service};
use playback_core::time::{PlayTime, TimeBase, TimeStamp};

fn test_play_time(channels: usize) -> PlayTime {
    PlayTime::new(
        TimeBase { numer: 1, denom: 44100 },
        44100 * 5,
        channels,
        44100,
        44100,
        Arc::new(AtomicU64::new(0)),
        Arc::new(AtomicUsize::new(0)),
    )
    .unwrap()
}

#[test]
fn ring_is_first_in_first_out() {
    let (mut prod, mut cons) = ring_split(4);
    let n = prod.push_slice(&vec![1, 2, 3, 4, 5, 6]);
    assert_eq!(n, 4);
    assert!(prod.is_full());
    assert_eq!(prod.occupied_len(), 4);
    assert!(prod.occupied_len() <= prod.capacity());
    let mut buf = vec![0i32; 8];
    let popped = cons.pop_slice(&mut buf);
    assert_eq!(popped, 4);
    assert_eq!(buf, vec![1, 2, 3, 4, 0, 0, 0, 0]);
    assert_eq!(cons.occupied_len(), 0);
}

#[test]
fn ring_occupancy_never_exceeds_capacity() {
    let (mut prod, mut cons) = ring_split(3);
    for round in 0..5 {
        let n = prod.push_slice(&vec![round; 2]);
        assert!(n <= 2);
        assert!(prod.occupied_len() <= prod.capacity());
        let mut buf = vec![0i32; 1];
        cons.pop_slice(&mut buf);
        assert!(cons.occupied_len() <= cons.capacity());
    }
}

#[test]
fn render_block_zero_fills_short_reads() {
    let (mut prod, mut cons) = ring_split(8);
    prod.push_slice(&vec![100, -100, 50]);
    let (block, popped, occupied) = render_block(&mut cons, 5, 65536);
    assert_eq!(popped, 3);
    assert_eq!(block, vec![100, -100, 50, 0, 0]);
    assert_eq!(occupied, 0);
}

#[test]
fn render_block_with_zero_gain_is_silent() {
    let (mut prod, mut cons) = ring_split(8);
    prod.push_slice(&vec![2147483647, -2147483648, 12345]);
    let (block, popped, _) = render_block(&mut cons, 4, 0);
    assert_eq!(popped, 3);
    assert_eq!(block, vec![0, 0, 0, 0]);
}

#[test]
fn render_block_gain_returns_after_silence() {
    let (mut prod, mut cons) = ring_split(8);
    prod.push_slice(&vec![1000, -1000]);
    let (silent, _, _) = render_block(&mut cons, 2, 0);
    assert_eq!(silent, vec![0, 0]);
    prod.push_slice(&vec![1000, -1000]);
    let (half, _, _) = render_block(&mut cons, 2, 32768);
    assert_eq!(half, vec![500, -500]);
    prod.push_slice(&vec![1000, -1000]);
    let (full, _, _) = render_block(&mut cons, 2, 65536);
    assert_eq!(full, vec![1000, -1000]);
}

#[test]
fn push_packet_keeps_unwritten_tail_as_leftover() {
    let (prod, mut cons) = ring_split(4);
    let pt = Arc::new(test_play_time(2));
    let decoded = pt.decoded_len.clone();
    let mut service = Service::new(prod, pt);
    assert!(!service.leftover_pending());

    let written = service.push_packet(&vec![1, 2, 3, 4, 5, 6], 3);
    assert_eq!(written, 4);
    assert!(service.leftover_pending());
    assert_eq!(decoded.load(Ordering::Relaxed), 3);

    let mut buf = vec![0i32; 4];
    assert_eq!(cons.pop_slice(&mut buf), 4);
    assert_eq!(buf, vec![1, 2, 3, 4]);

    let drained = service.drain_leftover();
    assert_eq!(drained, 2);
    assert!(!service.leftover_pending());

    let mut tail = vec![0i32; 4];
    assert_eq!(cons.pop_slice(&mut tail), 2);
    assert_eq!(tail, vec![5, 6, 0, 0]);
}

#[test]
fn packets_reach_the_consumer_in_decode_order() {
    let (prod, mut cons) = ring_split(4);
    let pt = Arc::new(test_play_time(2));
    let mut service = Service::new(prod, pt);
    let mut heard: Vec<i32> = Vec::new();
    let packets: Vec<Vec<i32>> = vec![vec![1, 2, 3], vec![4, 5, 6, 7, 8], vec![9]];
    for packet in &packets {
        while service.leftover_pending() {
            let mut buf = vec![0i32; 2];
            let n = cons.pop_slice(&mut buf);
            heard.extend_from_slice(&buf[..n]);
            service.drain_leftover();
        }
        service.push_packet(packet, (packet.len() / 2) as u64);
    }
    loop {
        let mut buf = vec![0i32; 2];
        let n = cons.pop_slice(&mut buf);
        heard.extend_from_slice(&buf[..n]);
        let drained = service.drain_leftover();
        if n == 0 && drained == 0 && !service.leftover_pending() {
            break;
        }
    }
    assert_eq!(heard, vec![1, 2, 3, 4, 5, 6, 7, 8, 9]);
}

#[test]
fn ready_for_packet_drains_leftover_first() {
    let (prod, mut cons) = ring_split(4);
    let pt = Arc::new(test_play_time(2));
    let mut service = Service::new(prod, pt);

    // Full ring, pending leftover: not ready.
    service.push_packet(&vec![1, 2, 3, 4, 5], 2);
    assert!(!service.ready_for_packet());

    // Room for the leftover: it drains, and the pipeline is ready again.
    let mut buf = vec![0i32; 4];
    assert_eq!(cons.pop_slice(&mut buf), 4);
    assert!(service.ready_for_packet());
    assert!(!service.leftover_pending());
    let mut tail = vec![0i32; 2];
    assert_eq!(cons.pop_slice(&mut tail), 1);
    assert_eq!(tail, vec![5, 0]);
}

#[test]
fn seek_success_clears_leftover_and_resets_position() {
    let (prod, _cons) = ring_split(2);
    let pt = Arc::new(test_play_time(2));
    let decoded = pt.decoded_len.clone();
    let mut service = Service::new(prod, pt);
    service.push_packet(&vec![1, 2, 3, 4], 2);
    assert!(service.leftover_pending());
    service.handle_seek_result(Some(1000));
    assert!(!service.leftover_pending());
    assert_eq!(decoded.load(Ordering::Relaxed), 1000);
}

#[test]
fn seek_failure_changes_nothing() {
    let (prod, _cons) = ring_split(2);
    let pt = Arc::new(test_play_time(2));
    let decoded = pt.decoded_len.clone();
    let mut service = Service::new(prod, pt);
    service.push_packet(&vec![1, 2, 3, 4], 2);
    service.handle_seek_result(None);
    assert!(service.leftover_pending());
    assert_eq!(decoded.load(Ordering::Relaxed), 2);
}

#[test]
fn progress_event_comes_at_most_every_tenth_second() {
    let (prod, _cons) = ring_split(2);
    let pt = Arc::new(test_play_time(2));
    let (tx, rx) = event_channel();
    let mut service = Service::new(prod, pt).subscribe(tx);

    let early = TimeStamp { seconds: 0, frac_num: 2205, frac_den: 44100 };
    assert!(!service.note_progress(early));
    assert!(try_recv_event(&rx).is_none());

    let at_tenth = TimeStamp { seconds: 0, frac_num: 4410, frac_den: 44100 };
    assert!(service.note_progress(at_tenth));
    assert_eq!(try_recv_event(&rx), Some(Events::PlaytimeRefresh));

    assert!(!service.note_progress(at_tenth));
    assert!(try_recv_event(&rx).is_none());

    let later = TimeStamp { seconds: 1, frac_num: 0, frac_den: 44100 };
    assert!(service.note_progress(later));
    assert_eq!(try_recv_event(&rx), Some(Events::PlaytimeRefresh));
}

#[test]
fn progress_without_subscriber_sends_nothing() {
    let (prod, _cons) = ring_split(2);
    let pt = Arc::new(test_play_time(2));
    let mut service = Service::new(prod, pt);
    let now = TimeStamp { seconds: 3, frac_num: 0, frac_den: 44100 };
    assert!(!service.note_progress(now));
}

#[test]
fn dropped_receiver_stops_the_sending() {
    let (prod, _cons) = ring_split(2);
    let pt = Arc::new(test_play_time(2));
    let (tx, rx) = event_channel();
    let mut service = Service::new(prod, pt).subscribe(tx);
    drop(rx);
    let now = TimeStamp { seconds: 1, frac_num: 0, frac_den: 44100 };
    assert!(!service.note_progress(now));
    assert!(!service.emit_finished());
}

#[test]
fn finish_fires_once_source_ended_and_ring_drained() {
    let (prod, _cons) = ring_split(2);
    let pt = Arc::new(test_play_time(2));
    let occupied = pt.occupied_len.clone();
    let (tx, rx) = event_channel();
    let mut service = Service::new(prod, pt).subscribe(tx);

    assert!(!service.finish_ready());
    service.note_finished();
    occupied.store(5, Ordering::Relaxed);
    assert!(!service.finish_ready());
    occupied.store(0, Ordering::Relaxed);
    assert!(service.finish_ready());
    assert!(service.emit_finished());
    assert_eq!(try_recv_event(&rx), Some(Events::PlayFinished));
}

#[test]
fn session_plays_packets_then_finishes() {
    // A whole track in miniature, single threaded: packets go in through
    // the service, the callback side pulls blocks at unity gain, and the
    // finish event arrives exactly once the source ended and the ring
    // drained.
    let (prod, mut cons) = ring_split(8);
    let pt = Arc::new(test_play_time(2));
    let occupied = pt.occupied_len.clone();
    let (tx, rx) = event_channel();
    let mut service = Service::new(prod, pt).subscribe(tx);

    let packets: Vec<Vec<i32>> = vec![vec![10, 20, 30, 40], vec![50, 60], vec![70, 80, 90, 100]];
    let mut heard: Vec<i32> = Vec::new();
    for packet in &packets {
        while !service.ready_for_packet() {
            let (block, popped, occ) = render_block(&mut cons, 4, 65536);
            heard.extend_from_slice(&block[..popped]);
            occupied.store(occ, Ordering::Relaxed);
        }
        service.push_packet(packet, (packet.len() / 2) as u64);
        occupied.store(service.producer.occupied_len(), Ordering::Relaxed);
    }
    service.note_finished();
    loop {
        service.drain_leftover();
        let (block, popped, occ) = render_block(&mut cons, 4, 65536);
        heard.extend_from_slice(&block[..popped]);
        occupied.store(occ, Ordering::Relaxed);
        if popped == 0 && !service.leftover_pending() {
            break;
        }
    }
    assert!(service.finish_ready());
    assert!(service.emit_finished());
    assert_eq!(try_recv_event(&rx), Some(Events::PlayFinished));
    assert_eq!(heard, vec![10, 20, 30, 40, 50, 60, 70, 80, 90, 100]);
}

#[test]
fn empty_channel_yields_no_event() {
    let (_tx, rx) = event_channel();
    assert!(try_recv_event(&rx).is_none());
}
