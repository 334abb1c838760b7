//! The probe ledger: an append-only, index-addressed record of every
//! probe in a run.  A slot's index is the probe's sequence number.  A
//! slot is appended as `Sent` and moves to `Received` at most once,
//! when its echo is matched; it never moves back.
//!
//! The spec functions here read a ledger's aggregate measures straight
//! off the sequence of records: how many are received, and the sum,
//! minimum, maximum and multiset of their latencies.  The lemmas say
//! how those measures move under the two ledger operations, appending
//! a `Sent` record and matching one slot's echo.

use vstd::math::max;
use vstd::math::min;
use vstd::multiset::Multiset;
use vstd::prelude::*;

verus! {

/// One probe's lifecycle: dispatched, or matched with its echo.  All
/// times are whole nanoseconds relative to the run's start.
#[derive(Clone, Copy, Debug, PartialEq, Eq, Structural)]
pub enum PacketStatus {
    /// Probe dispatched at this time; echo not yet observed.
    Sent(u64),
    /// Echo matched: dispatch time, arrival time, and their difference.
    Received { start: u64, stop: u64, latency: u64 },
}

/// The time a probe was dispatched, whichever state it is in.
pub open spec fn sent_at(p: PacketStatus) -> u64 {
    match p {
        PacketStatus::Sent(at) => at,
        PacketStatus::Received { start, .. } => start,
    }
}

/// How many slots of the ledger hold a matched echo.
pub open spec fn recv_count(s: Seq<PacketStatus>) -> nat
    decreases s.len(),
{
    if s.len() == 0 {
        0
    } else {
        recv_count(s.drop_last()) + if s.last() is Received {
            1nat
        } else {
            0nat
        }
    }
}

/// The sum of all matched latencies in the ledger.
pub open spec fn lat_sum(s: Seq<PacketStatus>) -> int
    decreases s.len(),
{
    if s.len() == 0 {
        0
    } else {
        lat_sum(s.drop_last()) + if s.last() is Received {
            s.last()->Received_latency as int
        } else {
            0
        }
    }
}

/// The smallest matched latency; meaningful once `recv_count > 0`.
pub open spec fn lat_min(s: Seq<PacketStatus>) -> int
    decreases s.len(),
{
    if s.len() == 0 {
        0
    } else if s.last() is Received {
        if recv_count(s.drop_last()) == 0 {
            s.last()->Received_latency as int
        } else {
            min(s.last()->Received_latency as int, lat_min(s.drop_last()))
        }
    } else {
        lat_min(s.drop_last())
    }
}

/// The largest matched latency; meaningful once `recv_count > 0`.
pub open spec fn lat_max(s: Seq<PacketStatus>) -> int
    decreases s.len(),
{
    if s.len() == 0 {
        0
    } else if s.last() is Received {
        if recv_count(s.drop_last()) == 0 {
            s.last()->Received_latency as int
        } else {
            max(s.last()->Received_latency as int, lat_max(s.drop_last()))
        }
    } else {
        lat_max(s.drop_last())
    }
}

/// The multiset of all matched latencies, with no trace of the order
/// in which the echoes arrived.
pub open spec fn lat_mset(s: Seq<PacketStatus>) -> Multiset<u64>
    decreases s.len(),
{
    if s.len() == 0 {
        Multiset::empty()
    } else if s.last() is Received {
        lat_mset(s.drop_last()).insert(s.last()->Received_latency)
    } else {
        lat_mset(s.drop_last())
    }
}

/// A ledger never holds more matched echoes than slots.
pub proof fn lemma_recv_count_le_len(s: Seq<PacketStatus>)
    ensures
        recv_count(s) <= s.len(),
    decreases s.len(),
{
    if s.len() > 0 {
        lemma_recv_count_le_len(s.drop_last());
    }
}

/// Appending a `Sent` record leaves every latency measure unchanged.
pub proof fn lemma_push_sent(s: Seq<PacketStatus>, at: u64)
    ensures
        recv_count(s.push(PacketStatus::Sent(at))) == recv_count(s),
        lat_sum(s.push(PacketStatus::Sent(at))) == lat_sum(s),
        lat_min(s.push(PacketStatus::Sent(at))) == lat_min(s),
        lat_max(s.push(PacketStatus::Sent(at))) == lat_max(s),
        lat_mset(s.push(PacketStatus::Sent(at))) == lat_mset(s),
{
    let t = s.push(PacketStatus::Sent(at));
    assert(t.drop_last() =~= s);
    assert(t.last() == PacketStatus::Sent(at));
}

/// Matching slot `i`'s echo at time `stop` raises the received count
/// by one, adds the slot's latency to the sum and to the multiset, and
/// moves min and max no further than that latency.
pub proof fn lemma_receive_update(s: Seq<PacketStatus>, i: int, stop: u64)
    requires
        0 <= i < s.len(),
        s[i] is Sent,
        stop >= sent_at(s[i]),
    ensures
        ({
            let lat = (stop - sent_at(s[i])) as u64;
            let t = s.update(
                i,
                PacketStatus::Received { start: sent_at(s[i]), stop, latency: lat },
            );
            &&& recv_count(t) == recv_count(s) + 1
            &&& lat_sum(t) == lat_sum(s) + lat
            &&& lat_mset(t) == lat_mset(s).insert(lat)
            &&& recv_count(s) == 0 ==> lat_min(t) == lat && lat_max(t) == lat
            &&& recv_count(s) > 0 ==> lat_min(t) == min(lat_min(s), lat as int) && lat_max(t)
                == max(lat_max(s), lat as int)
        }),
    decreases s.len(),
{
    let lat = (stop - sent_at(s[i])) as u64;
    let rec = PacketStatus::Received { start: sent_at(s[i]), stop, latency: lat };
    let t = s.update(i, rec);
    if i == s.len() - 1 {
        assert(t.drop_last() =~= s.drop_last());
        assert(t.last() == rec);
        assert(s.last() == s[i]);
    } else {
        lemma_receive_update(s.drop_last(), i, stop);
        assert(t.drop_last() =~= s.drop_last().update(i, rec));
        assert(t.last() == s.last());
        let td = s.drop_last().update(i, rec);
        if s.last() is Received {
            lemma_recv_count_le_len(s.drop_last());
            assert(recv_count(td) == recv_count(s.drop_last()) + 1);
            assert(lat_mset(t) =~= lat_mset(s).insert(lat));
        }
    }
}

/// All latency measures sit inside the bounds the counters force: the
/// sum is at most one `u64::MAX` per matched echo, and min and max are
/// themselves latencies.
pub proof fn lemma_lat_bounds(s: Seq<PacketStatus>)
    ensures
        0 <= lat_sum(s) <= recv_count(s) * (u64::MAX as int),
        recv_count(s) > 0 ==> 0 <= lat_min(s) <= lat_max(s) <= u64::MAX,
        recv_count(s) > 0 ==> recv_count(s) * lat_min(s) <= lat_sum(s) <= recv_count(s) * lat_max(
            s,
        ),
    decreases s.len(),
{
    if s.len() > 0 {
        lemma_lat_bounds(s.drop_last());
        let d = s.drop_last();
        let n = recv_count(d) as int;
        if s.last() is Received {
            let l = s.last()->Received_latency as int;
            if n > 0 {
                let lo = min(l, lat_min(d));
                let hi = max(l, lat_max(d));
                assert(lat_min(s) == lo && lat_max(s) == hi);
                assert(recv_count(s) == n + 1);
                assert((n + 1) * lo <= lat_sum(d) + l) by (nonlinear_arith)
                    requires
                        n * lat_min(d) <= lat_sum(d),
                        lo <= lat_min(d),
                        0 <= lo <= l,
                        n > 0,
                ;
                assert(lat_sum(d) + l <= (n + 1) * hi) by (nonlinear_arith)
                    requires
                        lat_sum(d) <= n * lat_max(d),
                        lat_max(d) <= hi,
                        l <= hi,
                        n > 0,
                ;
                assert((n + 1) * (u64::MAX as int) == n * (u64::MAX as int) + u64::MAX)
                    by (nonlinear_arith);
                assert(lat_sum(s) == lat_sum(d) + l);
                assert(recv_count(s) * lat_min(s) == (n + 1) * lo);
                assert(recv_count(s) * lat_max(s) == (n + 1) * hi);
            } else {
                assert(lat_sum(d) == 0);
                assert(recv_count(s) == 1 && lat_min(s) == l && lat_max(s) == l && lat_sum(s)
                    == l);
                assert(recv_count(s) * lat_min(s) == l && recv_count(s) * lat_max(s) == l)
                    by (nonlinear_arith)
                    requires
                        recv_count(s) == 1 && lat_min(s) == l && lat_max(s) == l,
                ;
            }
        } else {
            assert(recv_count(s) == recv_count(d) && lat_sum(s) == lat_sum(d) && lat_min(s)
                == lat_min(d) && lat_max(s) == lat_max(d));
        }
    }
}

} // verus!
