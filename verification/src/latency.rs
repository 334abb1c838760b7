//! The shared state of one measurement run and the per-event decisions
//! of its two workers.  The sender appends a `Sent` record and decides
//! whether its budget is spent; the receiver matches an echo against
//! the ledger and folds its latency into the running statistics.  The
//! unverified loops around the socket call `sender_tick` and
//! `handle_datagram` and do nothing else with this state.
//!
//! All times are whole nanoseconds since the run's start; the average
//! latency is the truncated mean of all matched latencies, computed
//! from a running sum so that no history is kept for it.

use crate::action::Action;
use crate::codec::SEQUENCE_WIDTH;
use crate::codec::decode_sequence;
use crate::codec::encode_sequence;
use crate::ledger::PacketStatus;
use crate::ledger::lat_max;
use crate::ledger::lat_min;
use crate::ledger::lat_sum;
use crate::ledger::lemma_lat_bounds;
use crate::ledger::lemma_push_sent;
use crate::ledger::lemma_receive_update;
use crate::ledger::lemma_recv_count_le_len;
use crate::ledger::recv_count;
use crate::ledger::sent_at;
use vstd::bytes::spec_u64_from_le_bytes;
use vstd::bytes::spec_u64_to_le_bytes;
use vstd::math::max;
use vstd::math::min;
use vstd::prelude::*;

verus! {

/// The shared mutable core of one run: the probe ledger and the O(1)
/// aggregates over it.  Both workers hold it for the whole run; it is
/// handed back to the caller for reporting once both have stopped.
pub struct State {
    /// One record per probe, indexed by sequence number, in send order.
    pub packets: Vec<PacketStatus>,
    /// How many probes have been matched with their echo.
    pub received_packets: u32,
    /// Probes sent but not yet matched; at run end these are the losses.
    pub packet_loss: u32,
    /// Smallest matched latency in nanoseconds; 0 before any match.
    pub min_latency: u64,
    /// Largest matched latency in nanoseconds; 0 before any match.
    pub max_latency: u64,
    /// Truncated mean of all matched latencies; 0 before any match.
    pub average_latency: u64,
    /// Running sum of all matched latencies, kept so the mean needs no
    /// history.
    pub total_latency: u128,
    /// Set exactly once, by the sender, when its budget is spent or
    /// cancellation fired; never unset.
    pub should_stop: bool,
}

impl State {
    /// Every counter and aggregate agrees with the ledger.
    pub open spec fn wf(self) -> bool {
        &&& self.packets@.len() <= u32::MAX
        &&& self.received_packets == recv_count(self.packets@)
        &&& self.packet_loss == self.packets@.len() - recv_count(self.packets@)
        &&& self.total_latency == lat_sum(self.packets@)
        &&& recv_count(self.packets@) > 0 ==> {
            &&& self.min_latency == lat_min(self.packets@)
            &&& self.max_latency == lat_max(self.packets@)
            &&& self.average_latency == lat_sum(self.packets@) / recv_count(self.packets@) as int
        }
        &&& recv_count(self.packets@) == 0 ==> self.min_latency == 0 && self.max_latency == 0
            && self.average_latency == 0
    }

    /// A fresh state for a run of up to `count` probes: empty ledger,
    /// all counters and aggregates zero, stop flag clear.
    pub fn new(count: u32) -> (s: State)
        ensures
            s.wf(),
            s.packets@.len() == 0,
            s.received_packets == 0,
            s.packet_loss == 0,
            s.min_latency == 0,
            s.max_latency == 0,
            s.average_latency == 0,
            s.total_latency == 0,
            !s.should_stop,
    {
        State {
            packets: Vec::with_capacity(count as usize),
            received_packets: 0,
            packet_loss: 0,
            min_latency: 0,
            max_latency: 0,
            average_latency: 0,
            total_latency: 0,
            should_stop: false,
        }
    }
}

/// Fold one matched latency into the aggregates: the first sample sets
/// min and max to itself, later samples move each bound independently;
/// the mean is recomputed from the running sum; one outstanding probe
/// becomes a received one.  The ledger itself is untouched: the caller
/// transitions the matched slot.
pub fn update_statistics(state: &mut State, latency: u64)
    requires
        old(state).received_packets < u32::MAX,
        old(state).packet_loss > 0,
        old(state).total_latency <= (old(state).received_packets as u128) * (u64::MAX as u128),
    ensures
        final(state).received_packets == old(state).received_packets + 1,
        final(state).packet_loss == old(state).packet_loss - 1,
        final(state).total_latency == old(state).total_latency + latency,
        final(state).average_latency == (old(state).total_latency + latency) as int / (old(
            state,
        ).received_packets + 1) as int,
        final(state).min_latency == if old(state).received_packets == 0 {
            latency as int
        } else {
            min(old(state).min_latency as int, latency as int)
        },
        final(state).max_latency == if old(state).received_packets == 0 {
            latency as int
        } else {
            max(old(state).max_latency as int, latency as int)
        },
        final(state).packets == old(state).packets,
        final(state).should_stop == old(state).should_stop,
{
    let n = state.received_packets;
    proof {
        let total = state.total_latency;
        assert(total + latency <= ((n + 1) as u128) * (u64::MAX as u128)) by (nonlinear_arith)
            requires
                total <= (n as u128) * (u64::MAX as u128),
                latency <= u64::MAX,
                n < u32::MAX,
        ;
    }
    state.total_latency = state.total_latency + latency as u128;
    let avg = state.total_latency / (n as u128 + 1);
    proof {
        let total = state.total_latency;
        assert(avg <= u64::MAX) by (nonlinear_arith)
            requires
                avg == total / ((n + 1) as u128),
                total <= ((n + 1) as u128) * (u64::MAX as u128),
                n < u32::MAX,
        ;
    }
    state.average_latency = avg as u64;

    if n == 0 {
        state.min_latency = latency;
        state.max_latency = latency;
    } else {
        if latency < state.min_latency {
            state.min_latency = latency;
        }
        if latency > state.max_latency {
            state.max_latency = latency;
        }
    }

    state.received_packets = n + 1;
    state.packet_loss = state.packet_loss - 1;
}

/// Whether the sender's stop condition holds once `sent` probes are
/// out: cancellation was requested, or a positive target is reached.
pub open spec fn sender_stops(count: u32, sent: nat, cancelled: bool) -> bool {
    cancelled || (count > 0 && sent >= count)
}

/// What one sender tick hands back to the loop around the socket.
pub struct SendOutcome {
    /// The datagram to transmit, sequence number already encoded.
    pub packet: Vec<u8>,
    /// How many probes have been sent, this one included.
    pub sent: u32,
    /// Whether the sender's budget is spent and the loop must end.
    pub stop: bool,
}

/// One tick of the sender: append `Sent` at time `at` (the append
/// comes strictly before the transmission, so a sequence number never
/// travels before its record exists), build the datagram carrying the
/// new record's index, and decide whether this tick was the last.
pub fn sender_tick(state: &mut State, at: u64, cancelled: bool, count: u32, packet_size: u16) -> (r:
    SendOutcome)
    requires
        old(state).wf(),
        !old(state).should_stop,
        old(state).packets@.len() < u32::MAX,
        packet_size >= SEQUENCE_WIDTH,
    ensures
        final(state).wf(),
        final(state).packets@ == old(state).packets@.push(
            PacketStatus::Sent(at),
        ),
        final(state).received_packets == old(state).received_packets,
        final(state).packet_loss == old(state).packet_loss + 1,
        final(state).min_latency == old(state).min_latency,
        final(state).max_latency == old(state).max_latency,
        final(state).average_latency == old(state).average_latency,
        final(state).total_latency == old(state).total_latency,
        final(state).should_stop == sender_stops(
            count,
            old(state).packets@.len() + 1,
            cancelled,
        ),
        r.sent == old(state).packets@.len() + 1,
        r.stop == final(state).should_stop,
        r.packet@.len() == packet_size,
        r.packet@.subrange(0, SEQUENCE_WIDTH as int) == spec_u64_to_le_bytes(
            old(state).packets@.len() as u64,
        ),
    {
    let sequence = state.packets.len() as u64;
    let packet = encode_sequence(sequence, packet_size);

    proof {
        lemma_push_sent(state.packets@, at);
        lemma_recv_count_le_len(state.packets@);
    }
    state.packets.push(PacketStatus::Sent(at));
    state.packet_loss = state.packet_loss + 1;

    let sent = state.packets.len() as u32;
    let stop = cancelled || (count > 0 && sent >= count);
    if stop {
        state.should_stop = true;
    }

    SendOutcome { packet, sent, stop }
}

/// Whether an echo carrying `sequence`, arriving at `stop`, matches a
/// probe still waiting for one.  A replayed or out-of-range sequence
/// number does not; nor does an arrival time before the recorded
/// dispatch, which a monotonic clock never produces.
pub open spec fn echo_matches(s: State, sequence: u64, stop: u64) -> bool {
    &&& sequence < s.packets@.len()
    &&& s.packets@[sequence as int] is Sent
    &&& stop >= sent_at(s.packets@[sequence as int])
}

/// How one echo changes the run's state: a match transitions its slot
/// and raises the received count, an anomaly (duplicate, out of range,
/// arrival before dispatch) changes nothing; either way the stop flag
/// and every unnamed field keep their value, and a notification comes
/// out exactly on a match.
pub open spec fn echo_step(pre: State, post: State, sequence: u64, stop: u64, r: Option<
    Action,
>) -> bool {
    &&& post.should_stop == pre.should_stop
    &&& if echo_matches(pre, sequence, stop) {
        let at = sent_at(pre.packets@[sequence as int]);
        let lat = (stop - at) as u64;
        &&& post.packets@ == pre.packets@.update(
            sequence as int,
            PacketStatus::Received { start: at, stop, latency: lat },
        )
        &&& post.received_packets == pre.received_packets + 1
        &&& post.packet_loss == pre.packet_loss - 1
        &&& post.total_latency == pre.total_latency + lat
        &&& post.average_latency == (pre.total_latency + lat) as int / (pre.received_packets
            + 1) as int
        &&& post.min_latency == if pre.received_packets == 0 {
            lat as int
        } else {
            min(pre.min_latency as int, lat as int)
        }
        &&& post.max_latency == if pre.received_packets == 0 {
            lat as int
        } else {
            max(pre.max_latency as int, lat as int)
        }
        &&& r == Some(
            Action::LatencyPacketsReceived(
                post.received_packets,
                post.min_latency,
                post.average_latency,
                post.max_latency,
            ),
        )
    } else {
        &&& post.packets@ == pre.packets@
        &&& post.received_packets == pre.received_packets
        &&& post.packet_loss == pre.packet_loss
        &&& post.min_latency == pre.min_latency
        &&& post.max_latency == pre.max_latency
        &&& post.average_latency == pre.average_latency
        &&& post.total_latency == pre.total_latency
        &&& r is None
    }
}

/// One receiver step after the sequence number is decoded: match the
/// echo against the ledger.  A match transitions its slot, folds the
/// latency into the statistics and yields the progress notification; a
/// duplicate or out-of-range echo is a recoverable anomaly that leaves
/// the whole state untouched and yields nothing.
pub fn record_echo(state: &mut State, sequence: u64, stop: u64) -> (r: Option<Action>)
    requires
        old(state).wf(),
    ensures
        final(state).wf(),
        echo_step(*old(state), *final(state), sequence, stop, r),
{
    if sequence >= state.packets.len() as u64 {
        return None;
    }
    let i = sequence as usize;
    let slot = state.packets[i];
    match slot {
        PacketStatus::Received { .. } => None,
        PacketStatus::Sent(start) => {
            if stop < start {
                return None;
            }
            let latency = stop - start;
            proof {
                lemma_lat_bounds(state.packets@);
                lemma_receive_update(state.packets@, i as int, stop);
                lemma_recv_count_le_len(
                    state.packets@.update(
                        i as int,
                        PacketStatus::Received { start, stop, latency },
                    ),
                );
            }
            state.packets[i] = PacketStatus::Received { start, stop, latency };
            update_statistics(state, latency);
            Some(
                Action::LatencyPacketsReceived(
                    state.received_packets,
                    state.min_latency,
                    state.average_latency,
                    state.max_latency,
                ),
            )
        },
    }
}

/// The whole receiver step for one inbound datagram: decode the
/// leading sequence number and match the echo.  A datagram too short
/// for the prefix is discarded like any other anomaly.
pub fn handle_datagram(state: &mut State, data: &[u8], stop: u64) -> (r: Option<Action>)
    requires
        old(state).wf(),
    ensures
        final(state).wf(),
        data@.len() < SEQUENCE_WIDTH ==> *final(state) == *old(state) && r is None,
        data@.len() >= SEQUENCE_WIDTH ==> echo_step(
            *old(state),
            *final(state),
            spec_u64_from_le_bytes(data@.subrange(0, SEQUENCE_WIDTH as int)),
            stop,
            r,
        ),
{
    match decode_sequence(data) {
        None => None,
        Some(sequence) => record_echo(state, sequence, stop),
    }
}

/// The configuration of one measurement run, immutable once the loops
/// start.  The unverified run loop binds the sockets and drives the
/// clock; everything it decides, it decides through `sender_tick` and
/// `handle_datagram` on the `State` it made with these settings.
pub struct Latency {
    /// Target probe count; 0 means unbounded, run until cancelled.
    pub count: u32,
    /// Bytes per probe datagram, sequence prefix included.
    pub packet_size: u16,
    /// Nanoseconds between two sender ticks.
    pub packet_interval: u64,
    /// The echo responder's UDP port.
    pub server_port: u16,
    /// Local bind port; 0 asks for an ephemeral one.
    pub client_port: u16,
}

impl Latency {
    /// A run towards the given responder port with a fixed probe
    /// budget and the default cadence: 64-byte probes every 100 ms
    /// from an ephemeral local port.
    pub fn new_with_count(port: u16, count: u32) -> (l: Latency)
        ensures
            l.count == count,
            l.packet_size == 64,
            l.packet_interval == 100_000_000,
            l.server_port == port,
            l.client_port == 0,
    {
        Latency {
            count,
            packet_size: 64,
            packet_interval: 100_000_000,
            server_port: port,
            client_port: 0,
        }
    }

    /// Same run, probing at this cadence (nanoseconds between ticks).
    pub fn with_interval(self, interval: u64) -> (l: Latency)
        ensures
            l == (Latency { packet_interval: interval, ..self }),
    {
        Latency { packet_interval: interval, ..self }
    }

    /// Same run, with probes of this many bytes.
    pub fn with_packet_size(self, size: u16) -> (l: Latency)
        ensures
            l == (Latency { packet_size: size, ..self }),
    {
        Latency { packet_size: size, ..self }
    }

    /// Same run, bound to this local port.
    pub fn with_client_port(self, port: u16) -> (l: Latency)
        ensures
            l == (Latency { client_port: port, ..self }),
    {
        Latency { client_port: port, ..self }
    }

    /// A probe must be able to carry its sequence number: a smaller
    /// packet size is a configuration error, rejected before any
    /// worker starts.
    pub fn validate(&self) -> (ok: bool)
        ensures
            ok <==> self.packet_size >= SEQUENCE_WIDTH,
    {
        self.packet_size >= SEQUENCE_WIDTH
    }
}

/// The share of sent probes still unaccounted for, in whole percent,
/// rounded down; 0 when nothing was sent yet, never a division by
/// zero.
pub fn loss_percentage(state: &State) -> (p: u64)
    requires
        state.wf(),
    ensures
        state.packets@.len() == 0 ==> p == 0,
        state.packets@.len() > 0 ==> p == (state.packet_loss as int) * 100 / (
        state.packets@.len() as int),
        p <= 100,
{
    let sent = state.packets.len() as u64;
    if sent == 0 {
        0
    } else {
        proof {
            let loss = state.packet_loss as int;
            let n = sent as int;
            lemma_recv_count_le_len(state.packets@);
            assert(loss * 100 / n <= 100) by (nonlinear_arith)
                requires
                    0 <= loss <= n,
                    0 < n,
            ;
        }
        (state.packet_loss as u64) * 100 / sent
    }
}

/// One row of the raw-sample export: the probe's index, when it left,
/// and, if its echo was matched, when it came back and how long it
/// took.  All times in whole microseconds.
pub struct CsvRecord {
    /// The probe's sequence number.
    pub packet: u64,
    /// Dispatch time.
    pub sent: u64,
    /// Arrival time, or nothing for a probe never matched.
    pub received: Option<u64>,
    /// Round-trip latency, or nothing for a probe never matched.
    pub latency: Option<u64>,
}

/// What the export row of ledger slot `i` must hold.
pub open spec fn csv_row_matches(row: CsvRecord, p: PacketStatus, i: int) -> bool {
    &&& row.packet == i
    &&& match p {
        PacketStatus::Sent(at) => {
            &&& row.sent == at / 1000
            &&& row.received is None
            &&& row.latency is None
        },
        PacketStatus::Received { start, stop, latency } => {
            &&& row.sent == start / 1000
            &&& row.received == Some((stop / 1000) as u64)
            &&& row.latency == Some((latency / 1000) as u64)
        },
    }
}

/// The full per-probe ledger as export rows, one per probe in send
/// order, with times turned from nanoseconds into microseconds.  The
/// unverified writer only serializes these rows.
pub fn csv_records(state: &State) -> (rows: Vec<CsvRecord>)
    ensures
        rows@.len() == state.packets@.len(),
        forall|i: int|
            0 <= i < rows@.len() ==> csv_row_matches(rows@[i], state.packets@[i], i),
{
    let mut rows: Vec<CsvRecord> = Vec::with_capacity(state.packets.len());
    let mut i: usize = 0;
    while i < state.packets.len()
        invariant
            i <= state.packets@.len(),
            rows@.len() == i,
            forall|j: int| 0 <= j < i ==> csv_row_matches(rows@[j], state.packets@[j], j),
        decreases state.packets@.len() - i,
    {
        let row = match state.packets[i] {
            PacketStatus::Sent(at) => CsvRecord {
                packet: i as u64,
                sent: at / 1000,
                received: None,
                latency: None,
            },
            PacketStatus::Received { start, stop, latency } => CsvRecord {
                packet: i as u64,
                sent: start / 1000,
                received: Some(stop / 1000),
                latency: Some(latency / 1000),
            },
        };
        rows.push(row);
        i = i + 1;
    }
    rows
}

} // verus!
