//! Tests of the wire codec, the full engine path from a sender's
//! datagram through the receiver's decode, the echo responder's
//! reflection, the export rows, and the shutdown phases.

use udp_latency::action::key_action;
use udp_latency::action::Action;
use udp_latency::codec::decode_sequence;
use udp_latency::codec::encode_sequence;
use udp_latency::latency::csv_records;
use udp_latency::latency::handle_datagram;
use udp_latency::latency::loss_percentage;
use udp_latency::latency::sender_tick;
use udp_latency::latency::State;
use udp_latency::server::echo_payload;
use udp_latency::server::Server;
use udp_latency::shutdown::advance_phase;
use udp_latency::shutdown::RunEvent;
use udp_latency::shutdown::RunPhase;

const MS: u64 = 1_000_000;

#[test]
fn sequence_number_round_trips() {
    for k in [0u64, 1, 5, 1234, u32::MAX as u64 + 7, u64::MAX] {
        let buf = encode_sequence(k, 64);
        assert_eq!(buf.len(), 64);
        assert_eq!(decode_sequence(&buf), Some(k));
    }
}

#[test]
fn encoding_is_little_endian_with_zero_filler() {
    let buf = encode_sequence(0x0102, 12);
    assert_eq!(buf, vec![0x02, 0x01, 0, 0, 0, 0, 0, 0, 0, 0, 0, 0]);
}

#[test]
fn short_datagram_decodes_to_nothing() {
    assert_eq!(decode_sequence(&[1, 2, 3]), None);
    assert_eq!(decode_sequence(&[]), None);
}

#[test]
fn loopback_run_matches_every_probe() {
    // count=5, interval 20ms, packet_size 64, every echo reflected:
    // the receiver consumes the sender's own bytes, as over loopback.
    let mut s = State::new(5);
    let mut echoes: Vec<Vec<u8>> = Vec::new();
    let mut at = 0u64;
    loop {
        let out = sender_tick(&mut s, at, false, 5, 64);
        at += 20 * MS;
        // the responder reflects the identical bytes
        echoes.push(echo_payload(&out.packet, out.packet.len()));
        if out.stop {
            break;
        }
    }
    assert_eq!(s.packets.len(), 5);
    for echo in &echoes {
        let r = handle_datagram(&mut s, echo, at);
        assert!(r.is_some());
        at += MS;
    }
    assert_eq!(s.received_packets, 5);
    assert_eq!(s.packet_loss, 0);
    assert_eq!(loss_percentage(&s), 0);
}

#[test]
fn absent_responder_reports_full_loss() {
    // count=3, no echo ever arrives: the run still ends after the
    // sender's budget, reporting nothing received and 100% loss.
    let mut s = State::new(3);
    for i in 0..3u64 {
        sender_tick(&mut s, i * 20 * MS, false, 3, 64);
    }
    assert!(s.should_stop);
    assert_eq!(s.received_packets, 0);
    assert_eq!(loss_percentage(&s), 100);
}

#[test]
fn no_probes_sent_reports_zero_loss() {
    let s = State::new(0);
    assert_eq!(loss_percentage(&s), 0);
}

#[test]
fn malformed_datagram_is_discarded() {
    let mut s = State::new(1);
    sender_tick(&mut s, 0, false, 1, 64);
    let r = handle_datagram(&mut s, &[0xff, 0x01], 5 * MS);
    assert_eq!(r, None);
    assert_eq!(s.received_packets, 0);
    assert_eq!(s.packet_loss, 1);
}

#[test]
fn echo_reply_is_the_received_bytes() {
    let data = [7u8, 6, 5, 4, 3, 2, 1, 0, 9, 9];
    assert_eq!(echo_payload(&data, 10), data.to_vec());
    assert_eq!(echo_payload(&data, 4), vec![7, 6, 5, 4]);
    assert_eq!(echo_payload(&data, 0), Vec::<u8>::new());
    let server = Server::new(5353);
    assert_eq!(server.port, 5353);
}

#[test]
fn export_rows_carry_microseconds() {
    let mut s = State::new(2);
    sender_tick(&mut s, 5 * MS, false, 2, 64);
    sender_tick(&mut s, 25 * MS, false, 2, 64);
    handle_datagram(&mut s, &encode_sequence(1, 64), 40 * MS);
    let rows = csv_records(&s);
    assert_eq!(rows.len(), 2);
    assert_eq!(rows[0].packet, 0);
    assert_eq!(rows[0].sent, 5_000);
    assert_eq!(rows[0].received, None);
    assert_eq!(rows[0].latency, None);
    assert_eq!(rows[1].packet, 1);
    assert_eq!(rows[1].sent, 25_000);
    assert_eq!(rows[1].received, Some(40_000));
    assert_eq!(rows[1].latency, Some(15_000));
}

#[test]
fn run_phases_move_forward_once() {
    let p = RunPhase::Running;
    let p = advance_phase(p, RunEvent::GraceExpired);
    assert_eq!(p, RunPhase::Running);
    let p = advance_phase(p, RunEvent::SenderFinished);
    assert_eq!(p, RunPhase::Draining);
    // cancellation is idempotent: a second report changes nothing
    let p = advance_phase(p, RunEvent::SenderFinished);
    assert_eq!(p, RunPhase::Draining);
    let p = advance_phase(p, RunEvent::GraceExpired);
    assert_eq!(p, RunPhase::Stopped);
    let p = advance_phase(p, RunEvent::SocketError);
    assert_eq!(p, RunPhase::Stopped);
}

#[test]
fn socket_error_stops_a_running_receiver() {
    assert_eq!(
        advance_phase(RunPhase::Running, RunEvent::SocketError),
        RunPhase::Stopped
    );
    assert_eq!(
        advance_phase(RunPhase::Draining, RunEvent::SocketError),
        RunPhase::Stopped
    );
}

#[test]
fn keys_map_to_actions() {
    assert_eq!(key_action('c', true), Some(Action::Quit));
    assert_eq!(key_action('q', false), Some(Action::Quit));
    assert_eq!(key_action('h', false), Some(Action::ToggleShowHelp));
    assert_eq!(key_action('c', false), None);
    assert_eq!(key_action('x', false), None);
}
