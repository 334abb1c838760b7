//! Whole-run scenarios driven under a real async runtime and real
//! timers: a run whose responder never answers still completes after
//! the sender's budget plus the grace window, and an unbounded run
//! ends promptly on external cancellation.

use std::time::Duration;
use std::time::Instant;

use udp_latency::latency::sender_tick;
use udp_latency::latency::State;

#[test]
fn absent_responder_run_completes() {
    let rt = tokio::runtime::Builder::new_current_thread()
        .enable_all()
        .build()
        .unwrap();
    rt.block_on(async {
        let start = Instant::now();
        let mut state = State::new(3);
        let mut interval = tokio::time::interval(Duration::from_millis(20));
        loop {
            interval.tick().await;
            let at = start.elapsed().as_nanos() as u64;
            let out = sender_tick(&mut state, at, false, 3, 64);
            if out.stop {
                break;
            }
        }
        assert!(state.should_stop);

        // no echo ever arrives: one idle grace cycle expires and the
        // receiver exits instead of hanging
        let drained = tokio::time::timeout(
            Duration::from_millis(udp_latency::shutdown::GRACE_WINDOW_MS),
            std::future::pending::<()>(),
        )
        .await;
        assert!(drained.is_err());

        assert_eq!(state.packets.len(), 3);
        assert_eq!(state.received_packets, 0);
        assert_eq!(state.packet_loss, 3);
        assert_eq!(
            udp_latency::latency::loss_percentage(&state),
            100
        );
    });
}

#[test]
fn cancellation_ends_unbounded_run() {
    let rt = tokio::runtime::Builder::new_current_thread()
        .enable_all()
        .build()
        .unwrap();
    rt.block_on(async {
        let token = tokio_util::sync::CancellationToken::new();
        let mut state = State::new(0);
        let mut sends = 0u32;
        loop {
            let out = sender_tick(&mut state, sends as u64, token.is_cancelled(), 0, 64);
            sends = out.sent;
            if out.stop {
                break;
            }
            if sends == 3 {
                // external cancellation after the 3rd send; firing it
                // twice is a no-op
                token.cancel();
                token.cancel();
            }
        }
        assert_eq!(sends, 4);
        assert!(state.should_stop);
        assert_eq!(state.packets.len(), 4);
    });
}
