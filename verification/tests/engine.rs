//! Scenario tests for the measurement engine: the sender's budget,
//! the ledger accounting, the statistics aggregates, and anomaly
//! handling, driven through the same calls the run loops make.

use udp_latency::action::Action;
use udp_latency::latency::record_echo;
use udp_latency::latency::sender_tick;
use udp_latency::latency::update_statistics;
use udp_latency::latency::Latency;
use udp_latency::latency::State;

const MS: u64 = 1_000_000;

#[test]
fn fresh_state_is_empty() {
    let s = State::new(10);
    assert_eq!(s.packets.len(), 0);
    assert_eq!(s.received_packets, 0);
    assert_eq!(s.packet_loss, 0);
    assert_eq!(s.min_latency, 0);
    assert_eq!(s.max_latency, 0);
    assert_eq!(s.average_latency, 0);
    assert!(!s.should_stop);
}

#[test]
fn sender_issues_exactly_count_probes() {
    let mut s = State::new(5);
    let mut ticks = 0u32;
    loop {
        let out = sender_tick(&mut s, ticks as u64 * 20 * MS, false, 5, 64);
        ticks += 1;
        assert_eq!(out.sent, ticks);
        assert_eq!(out.packet.len(), 64);
        assert_eq!(out.stop, ticks >= 5);
        if out.stop {
            break;
        }
    }
    assert_eq!(ticks, 5);
    assert_eq!(s.packets.len(), 5);
    assert!(s.should_stop);
}

#[test]
fn unbounded_run_stops_only_on_cancellation() {
    let mut s = State::new(0);
    for i in 0..3u64 {
        let out = sender_tick(&mut s, i * MS, false, 0, 64);
        assert!(!out.stop);
    }
    assert!(!s.should_stop);
    // cancellation fires before the 4th send
    let out = sender_tick(&mut s, 3 * MS, true, 0, 64);
    assert!(out.stop);
    assert_eq!(out.sent, 4);
    assert!(s.should_stop);
    assert_eq!(s.packets.len(), 4);
}

#[test]
fn outstanding_plus_received_is_total_sent() {
    let mut s = State::new(4);
    for i in 0..4u64 {
        sender_tick(&mut s, i * MS, false, 4, 64);
        assert_eq!(s.packet_loss + s.received_packets, s.packets.len() as u32);
    }
    for i in [2u64, 0, 3] {
        record_echo(&mut s, i, 10 * MS);
        assert_eq!(s.packet_loss + s.received_packets, s.packets.len() as u32);
    }
    assert_eq!(s.received_packets, 3);
    assert_eq!(s.packet_loss, 1);
}

#[test]
fn average_of_three_samples_is_their_mean() {
    let mut s = State::new(0);
    for _ in 0..3 {
        sender_tick(&mut s, 0, false, 0, 64);
    }
    update_statistics(&mut s, 10 * MS);
    update_statistics(&mut s, 20 * MS);
    update_statistics(&mut s, 30 * MS);
    assert_eq!(s.average_latency, 20 * MS);
}

#[test]
fn average_is_arrival_order_independent() {
    let orders: [[u64; 3]; 3] = [[10, 20, 30], [30, 10, 20], [20, 30, 10]];
    for order in orders {
        let mut s = State::new(0);
        for _ in 0..3 {
            sender_tick(&mut s, 0, false, 0, 64);
        }
        for lat in order {
            update_statistics(&mut s, lat * MS);
        }
        assert_eq!(s.average_latency, 20 * MS);
        assert_eq!(s.min_latency, 10 * MS);
        assert_eq!(s.max_latency, 30 * MS);
    }
}

#[test]
fn min_max_move_monotonically() {
    let mut s = State::new(0);
    for _ in 0..4 {
        sender_tick(&mut s, 0, false, 0, 64);
    }
    update_statistics(&mut s, 20 * MS);
    // the single sample sets both bounds to itself
    assert_eq!(s.min_latency, 20 * MS);
    assert_eq!(s.max_latency, 20 * MS);
    let mut last_min = s.min_latency;
    let mut last_max = s.max_latency;
    for lat in [35u64, 5, 25] {
        update_statistics(&mut s, lat * MS);
        assert!(s.min_latency <= last_min);
        assert!(s.max_latency >= last_max);
        last_min = s.min_latency;
        last_max = s.max_latency;
    }
    assert_eq!(s.min_latency, 5 * MS);
    assert_eq!(s.max_latency, 35 * MS);
}

#[test]
fn matched_echo_updates_slot_and_reports() {
    let mut s = State::new(2);
    sender_tick(&mut s, 5 * MS, false, 2, 64);
    sender_tick(&mut s, 25 * MS, false, 2, 64);
    let r = record_echo(&mut s, 1, 40 * MS);
    assert_eq!(
        r,
        Some(Action::LatencyPacketsReceived(1, 15 * MS, 15 * MS, 15 * MS))
    );
    assert_eq!(s.received_packets, 1);
    assert_eq!(s.packet_loss, 1);
}

#[test]
fn duplicate_echo_changes_nothing() {
    let mut s = State::new(2);
    sender_tick(&mut s, 0, false, 2, 64);
    sender_tick(&mut s, 10 * MS, false, 2, 64);
    assert!(record_echo(&mut s, 0, 12 * MS).is_some());
    let before_received = s.received_packets;
    let before_min = s.min_latency;
    let before_max = s.max_latency;
    let before_avg = s.average_latency;
    // a replayed sequence number is discarded without any effect
    let r = record_echo(&mut s, 0, 30 * MS);
    assert_eq!(r, None);
    assert_eq!(s.received_packets, before_received);
    assert_eq!(s.min_latency, before_min);
    assert_eq!(s.max_latency, before_max);
    assert_eq!(s.average_latency, before_avg);
    assert_eq!(s.packet_loss, 1);
}

#[test]
fn out_of_range_echo_changes_nothing() {
    let mut s = State::new(2);
    sender_tick(&mut s, 0, false, 2, 64);
    let r = record_echo(&mut s, 7, 5 * MS);
    assert_eq!(r, None);
    assert_eq!(s.received_packets, 0);
    assert_eq!(s.packet_loss, 1);
    assert_eq!(s.min_latency, 0);
    assert_eq!(s.max_latency, 0);
    assert_eq!(s.average_latency, 0);
}

#[test]
fn builders_configure_the_run() {
    let l = Latency::new_with_count(9999, 100);
    assert_eq!(l.server_port, 9999);
    assert_eq!(l.count, 100);
    assert_eq!(l.packet_size, 64);
    assert_eq!(l.packet_interval, 100_000_000);
    assert_eq!(l.client_port, 0);
    let l = l
        .with_interval(20 * MS)
        .with_packet_size(128)
        .with_client_port(4000);
    assert_eq!(l.packet_interval, 20 * MS);
    assert_eq!(l.packet_size, 128);
    assert_eq!(l.client_port, 4000);
    assert!(l.validate());
    // a packet too small for the sequence prefix is a configuration error
    let l = l.with_packet_size(7);
    assert!(!l.validate());
    let l = l.with_packet_size(8);
    assert!(l.validate());
}
