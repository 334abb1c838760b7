//! The engine's global guarantees, stated and proved over the spec
//! model: the sender's exact send count, the accounting between
//! outstanding and received probes, the arrival-order independence of
//! the final aggregates, and the monotone movement of min and max.

use crate::action::Action;
use crate::latency::State;
use crate::latency::echo_step;
use crate::latency::sender_stops;
use crate::ledger::PacketStatus;
use crate::ledger::lat_max;
use crate::ledger::lat_min;
use crate::ledger::lat_mset;
use crate::ledger::lat_sum;
use crate::ledger::lemma_lat_bounds;
use crate::ledger::lemma_receive_update;
use crate::ledger::recv_count;
use crate::ledger::sent_at;
use vstd::math::max;
use vstd::math::min;
use vstd::arithmetic::div_mod::lemma_div_is_ordered;
use vstd::arithmetic::div_mod::lemma_div_multiples_vanish;
use vstd::multiset::Multiset;
use vstd::prelude::*;

verus! {

broadcast use vstd::multiset::group_multiset_axioms;

/// For any reachable state, every sent probe is either matched or
/// still outstanding: `packet_loss + received_packets` is exactly the
/// number of probes sent.
pub proof fn lemma_outstanding_accounting(s: State)
    requires
        s.wf(),
    ensures
        s.packet_loss + s.received_packets == s.packets@.len(),
{
}

/// The sender abstracted to what its stop condition reads: how many
/// probes are out, and whether the stop flag is set.
pub struct SenderModel {
    /// Probes sent so far: the ledger's length.
    pub sent: nat,
    /// The stop flag.
    pub stopped: bool,
}

/// A fresh sender: nothing sent, flag clear.
pub open spec fn sender_model_new() -> SenderModel {
    SenderModel { sent: 0, stopped: false }
}

/// One tick of the sender, as `sender_tick` performs it: one more
/// probe out, and the flag set exactly by the stop condition.
pub open spec fn sender_model_tick(m: SenderModel, cancelled: bool, count: u32) -> SenderModel {
    SenderModel { sent: m.sent + 1, stopped: sender_stops(count, m.sent + 1, cancelled) }
}

/// The abstraction of a run's state to the sender model.
pub open spec fn sender_abs(s: State) -> SenderModel {
    SenderModel { sent: s.packets@.len(), stopped: s.should_stop }
}

/// `sender_tick`'s contract walks the model: a step that appends one
/// record and decides the stop condition moves the abstraction by one
/// model tick.
pub proof fn lemma_sender_tick_follows_model(pre: State, post: State, cancelled: bool, count: u32)
    requires
        post.packets@.len() == pre.packets@.len() + 1,
        post.should_stop == sender_stops(count, pre.packets@.len() + 1, cancelled),
    ensures
        sender_abs(post) == sender_model_tick(sender_abs(pre), cancelled, count),
{
}

/// A fresh sender after `k` un-cancelled model ticks.
pub open spec fn sender_model_run(count: u32, k: nat) -> SenderModel
    decreases k,
{
    if k == 0 {
        sender_model_new()
    } else {
        sender_model_tick(sender_model_run(count, (k - 1) as nat), false, count)
    }
}

/// With a positive target and no cancellation, the sender issues
/// exactly `count` probes: after `k` ticks exactly `k` are out, and
/// the stop flag is set if and only if the target is reached — so the
/// flag is clear through tick `count - 1`, set on tick `count`, and a
/// tick demands a clear flag, so none follows.
pub proof fn lemma_sender_exact_sends(count: u32, k: nat)
    requires
        count > 0,
    ensures
        sender_model_run(count, k).sent == k,
        sender_model_run(count, k).stopped <==> k >= count,
    decreases k,
{
    if k > 0 {
        lemma_sender_exact_sends(count, (k - 1) as nat);
    }
}

/// The sum of a multiset of latencies, picking elements in no
/// particular order.
pub open spec fn mset_sum(m: Multiset<u64>) -> int
    decreases m.len(),
{
    if m.len() == 0 {
        0
    } else {
        let v = m.choose();
        v + mset_sum(m.remove(v))
    }
}

/// Taking out any present element first gives the same sum: the order
/// in which `mset_sum` picks does not matter.
pub proof fn lemma_mset_sum_remove(m: Multiset<u64>, x: u64)
    requires
        m.count(x) > 0,
    ensures
        mset_sum(m) == x + mset_sum(m.remove(x)),
    decreases m.len(),
{
    let v = m.choose();
    if v != x {
        assert(m.remove(v).count(x) > 0);
        lemma_mset_sum_remove(m.remove(v), x);
        assert(m.remove(x).count(v) > 0);
        lemma_mset_sum_remove(m.remove(x), v);
        assert(m.remove(v).remove(x) =~= m.remove(x).remove(v));
    }
}

/// Adding one element adds exactly its value to the sum.
pub proof fn lemma_mset_sum_insert(m: Multiset<u64>, x: u64)
    ensures
        mset_sum(m.insert(x)) == mset_sum(m) + x,
{
    lemma_mset_sum_remove(m.insert(x), x);
    assert(m.insert(x).remove(x) =~= m);
}

/// The smallest element of a multiset of latencies, picking elements
/// in no particular order; 0 when it is empty.
pub open spec fn mset_min(m: Multiset<u64>) -> int
    decreases m.len(),
{
    if m.len() == 0 {
        0
    } else if m.len() == 1 {
        m.choose() as int
    } else {
        let v = m.choose();
        min(v as int, mset_min(m.remove(v)))
    }
}

/// The largest element of a multiset of latencies; 0 when it is empty.
pub open spec fn mset_max(m: Multiset<u64>) -> int
    decreases m.len(),
{
    if m.len() == 0 {
        0
    } else if m.len() == 1 {
        m.choose() as int
    } else {
        let v = m.choose();
        max(v as int, mset_max(m.remove(v)))
    }
}

/// In a multiset of one element, `choose` picks that element.
proof fn lemma_mset_singleton_choose(m: Multiset<u64>, x: u64)
    requires
        m.len() == 1,
        m.count(x) > 0,
    ensures
        m.choose() == x,
{
    let c = m.choose();
    assert(Multiset::singleton(x).subset_of(m));
    assert(m.remove(x).len() == 0);
    vstd::multiset::lemma_multiset_empty_len(m.remove(x));
    assert(m.remove(x).count(c) == 0);
}

/// Removing the chosen element first, or any present element first,
/// yields the same minimum: `mset_min` does not depend on the order
/// in which it picks.
pub proof fn lemma_mset_min_remove(m: Multiset<u64>, x: u64)
    requires
        m.count(x) > 0,
    ensures
        mset_min(m) == if m.len() == 1 {
            x as int
        } else {
            min(x as int, mset_min(m.remove(x)))
        },
    decreases m.len(),
{
    let v = m.choose();
    assert(Multiset::singleton(x).subset_of(m));
    assert(m.remove(x).len() == m.len() - 1);
    if m.len() == 1 {
        lemma_mset_singleton_choose(m, x);
    } else if v != x {
        assert(Multiset::singleton(v).subset_of(m));
        assert(m.remove(v).len() == m.len() - 1);
        assert(m.remove(v).count(x) > 0);
        assert(m.remove(x).count(v) > 0);
        lemma_mset_min_remove(m.remove(v), x);
        lemma_mset_min_remove(m.remove(x), v);
        assert(m.remove(v).remove(x) =~= m.remove(x).remove(v));
    }
}

/// The same, for the maximum.
pub proof fn lemma_mset_max_remove(m: Multiset<u64>, x: u64)
    requires
        m.count(x) > 0,
    ensures
        mset_max(m) == if m.len() == 1 {
            x as int
        } else {
            max(x as int, mset_max(m.remove(x)))
        },
    decreases m.len(),
{
    let v = m.choose();
    assert(Multiset::singleton(x).subset_of(m));
    assert(m.remove(x).len() == m.len() - 1);
    if m.len() == 1 {
        lemma_mset_singleton_choose(m, x);
    } else if v != x {
        assert(Multiset::singleton(v).subset_of(m));
        assert(m.remove(v).len() == m.len() - 1);
        assert(m.remove(v).count(x) > 0);
        assert(m.remove(x).count(v) > 0);
        lemma_mset_max_remove(m.remove(v), x);
        lemma_mset_max_remove(m.remove(x), v);
        assert(m.remove(v).remove(x) =~= m.remove(x).remove(v));
    }
}

/// Adding one element moves the minimum and maximum exactly as one
/// more sample does.
pub proof fn lemma_mset_min_max_insert(m: Multiset<u64>, x: u64)
    ensures
        mset_min(m.insert(x)) == if m.len() == 0 {
            x as int
        } else {
            min(x as int, mset_min(m))
        },
        mset_max(m.insert(x)) == if m.len() == 0 {
            x as int
        } else {
            max(x as int, mset_max(m))
        },
{
    assert(m.insert(x).count(x) > 0);
    assert(Multiset::singleton(x).subset_of(m.insert(x)));
    assert(m.insert(x).len() == m.len() + 1);
    lemma_mset_min_remove(m.insert(x), x);
    lemma_mset_max_remove(m.insert(x), x);
    assert(m.insert(x).remove(x) =~= m);
}

/// A ledger's received count, latency sum, minimum and maximum are
/// already determined by its multiset of latencies.
pub proof fn lemma_aggregates_from_mset(s: Seq<PacketStatus>)
    ensures
        lat_sum(s) == mset_sum(lat_mset(s)),
        recv_count(s) == lat_mset(s).len(),
        recv_count(s) > 0 ==> lat_min(s) == mset_min(lat_mset(s)) && lat_max(s) == mset_max(
            lat_mset(s),
        ),
    decreases s.len(),
{
    if s.len() > 0 {
        lemma_aggregates_from_mset(s.drop_last());
        if s.last() is Received {
            lemma_mset_sum_insert(lat_mset(s.drop_last()), s.last()->Received_latency);
            lemma_mset_min_max_insert(lat_mset(s.drop_last()), s.last()->Received_latency);
        }
    }
}

/// The final aggregates are independent of the order in which the
/// echoes arrived: two runs whose ledgers hold the same multiset of
/// matched latencies report the same received count, sum, cumulative
/// average, minimum and maximum, however differently the intermediate
/// values moved.
pub proof fn lemma_average_order_independent(a: State, b: State)
    requires
        a.wf(),
        b.wf(),
        lat_mset(a.packets@) == lat_mset(b.packets@),
    ensures
        a.received_packets == b.received_packets,
        a.total_latency == b.total_latency,
        a.average_latency == b.average_latency,
        a.min_latency == b.min_latency,
        a.max_latency == b.max_latency,
{
    lemma_aggregates_from_mset(a.packets@);
    lemma_aggregates_from_mset(b.packets@);
}

/// The reported average always lies between the reported minimum and
/// maximum once anything was received.
pub proof fn lemma_average_within_bounds(s: State)
    requires
        s.wf(),
        s.received_packets > 0,
    ensures
        s.min_latency <= s.average_latency <= s.max_latency,
{
    lemma_lat_bounds(s.packets@);
    let n = recv_count(s.packets@) as int;
    let sum = lat_sum(s.packets@);
    let lo = lat_min(s.packets@);
    let hi = lat_max(s.packets@);
    lemma_div_is_ordered(n * lo, sum, n);
    lemma_div_is_ordered(sum, n * hi, n);
    lemma_div_multiples_vanish(lo, n);
    lemma_div_multiples_vanish(hi, n);
}

/// A slot that holds a matched echo is final: no later echo, matched
/// or anomalous, alters it — a record moves from `Sent` to `Received`
/// at most once and never back.
pub proof fn lemma_received_slot_is_final(
    pre: State,
    post: State,
    sequence: u64,
    stop: u64,
    r: Option<Action>,
    j: int,
)
    requires
        echo_step(pre, post, sequence, stop, r),
        0 <= j < pre.packets@.len(),
        pre.packets@[j] is Received,
    ensures
        post.packets@.len() == pre.packets@.len(),
        post.packets@[j] == pre.packets@[j],
{
}

/// As more samples arrive, min never rises and max never falls; after
/// exactly one received echo both equal that sample.  Stated over the
/// one ledger operation that adds a sample: matching slot `i`'s echo.
pub proof fn lemma_min_max_monotone(s: Seq<PacketStatus>, i: int, stop: u64)
    requires
        0 <= i < s.len(),
        s[i] is Sent,
        stop >= sent_at(s[i]),
    ensures
        ({
            let lat = (stop - sent_at(s[i])) as u64;
            let t = s.update(
                i,
                PacketStatus::Received { start: sent_at(s[i]), stop, latency: lat },
            );
            &&& recv_count(s) > 0 ==> lat_min(t) <= lat_min(s) && lat_max(t) >= lat_max(s)
            &&& recv_count(s) == 0 ==> lat_min(t) == lat && lat_max(t) == lat
        }),
{
    lemma_receive_update(s, i, stop);
}

} // verus!
