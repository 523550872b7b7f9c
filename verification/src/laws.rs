//! The ordering laws of the logical clock, stated over traces of clock
//! operations and proved from the transition functions. Every clock carries
//! its trace, and each bump appends to it, so these laws hold of every
//! clock and process. The laws hold as long as the counter stays below its
//! wrap point; at the wrap the counter restarts at zero by design, and no
//! ordering can be promised across it.

use vstd::prelude::*;
use crate::clock::ClockOp;
use crate::clock::apply_op;
use crate::clock::clock_after;
use crate::clock::max_u64;
use crate::clock::next_after_receive;
use crate::clock::next_after_send;
use crate::clock::op_in_range;
use crate::clock::readings;
use crate::clock::trace_in_range;

verus! {

/// Every single operation below the wrap point strictly increases the clock.
pub proof fn lemma_op_strictly_increases(t: u64, op: ClockOp)
    requires
        op_in_range(t, op),
    ensures
        apply_op(t, op) > t,
{
}

/// A trace of `n` operations produces exactly `n` readings, and the last
/// reading of a nonempty trace is the trace's final clock value.
pub proof fn lemma_readings_complete(t: u64, ops: Seq<ClockOp>)
    ensures
        readings(t, ops).len() == ops.len(),
        ops.len() > 0 ==> readings(t, ops).last() == clock_after(t, ops),
    decreases ops.len(),
{
    if ops.len() > 0 {
        let t1 = apply_op(t, ops[0]);
        let rest = ops.drop_first();
        lemma_readings_complete(t1, rest);
        assert(readings(t, ops) == seq![t1] + readings(t1, rest));
        assert(clock_after(t, ops) == clock_after(t1, rest));
        if rest.len() == 0 {
            assert(clock_after(t1, rest) == t1);
            assert(readings(t, ops).last() == t1);
        } else {
            assert(readings(t, ops).last() == readings(t1, rest).last());
        }
    }
}

/// Monotonicity: a trace of send and receive operations on one process's
/// clock produces strictly increasing readings — no repeats, no decreases —
/// as long as the counter stays below its wrap point.
pub proof fn lemma_readings_strictly_increase(t: u64, ops: Seq<ClockOp>)
    requires
        trace_in_range(t, ops),
    ensures
        readings(t, ops).len() == ops.len(),
        forall|i: int| 0 <= i < ops.len() ==> #[trigger] readings(t, ops)[i] > t,
        forall|i: int, j: int|
            0 <= i < j < ops.len() ==> readings(t, ops)[i] < readings(t, ops)[j],
    decreases ops.len(),
{
    lemma_readings_complete(t, ops);
    if ops.len() > 0 {
        let t1 = apply_op(t, ops[0]);
        let rest = ops.drop_first();
        lemma_op_strictly_increases(t, ops[0]);
        lemma_readings_strictly_increase(t1, rest);
        assert(readings(t, ops) == seq![t1] + readings(t1, rest));
        assert forall|i: int| 0 <= i < ops.len() implies #[trigger] readings(t, ops)[i]
            > t by {
            if i > 0 {
                assert(readings(t, ops)[i] == readings(t1, rest)[i - 1]);
            }
        }
        assert forall|i: int, j: int| 0 <= i < j < ops.len() implies readings(t, ops)[i]
            < readings(t, ops)[j] by {
            assert(readings(t, ops)[j] == readings(t1, rest)[j - 1]);
            if i > 0 {
                assert(readings(t, ops)[i] == readings(t1, rest)[i - 1]);
            }
        }
    }
}

/// No lost updates: a trace of `n` operations leaves the counter at least
/// `n` above where it started, so every operation's effect is reflected in
/// the final value — none is overwritten and silently dropped.
pub proof fn lemma_no_lost_updates(t: u64, ops: Seq<ClockOp>)
    requires
        trace_in_range(t, ops),
    ensures
        clock_after(t, ops) >= t + ops.len(),
    decreases ops.len(),
{
    if ops.len() > 0 {
        lemma_op_strictly_increases(t, ops[0]);
        lemma_no_lost_updates(apply_op(t, ops[0]), ops.drop_first());
    }
}

/// Causality: a receive installs exactly one past the larger of the clock's
/// prior reading and the received timestamp, so the new reading is strictly
/// above both.
pub proof fn lemma_receive_causality(t: u64, received: u64)
    requires
        t < u64::MAX,
        received < u64::MAX,
    ensures
        next_after_receive(t, received) == max_u64(t, received) + 1,
        next_after_receive(t, received) > t,
        next_after_receive(t, received) > received,
{
}

/// Linearizability sanity: when one process stamps two events back to back,
/// the first carries the clock's reading and the second carries the reading
/// after the first bump, so the second timestamp is strictly larger.
/// Delivery is synchronous, so a target the two events are sent to receives
/// them with strictly increasing timestamps in the order they were sent.
pub proof fn lemma_back_to_back_sends(first_stamp: u64, second_stamp: u64, t: u64)
    requires
        t < u64::MAX,
        first_stamp == t,
        second_stamp == next_after_send(t),
    ensures
        first_stamp < second_stamp,
{
}

/// A race of two sends drawn from the same clock: in whichever order the two
/// bumps linearize, one obtains the clock's reading and the other the
/// reading one past it — never the same stamp twice — and after the target
/// receives both, in either arrival order, its clock stands strictly above
/// both stamps.
pub proof fn lemma_race_two_sends(sender_clock: u64, receiver_clock: u64)
    requires
        sender_clock < u64::MAX - 2,
        receiver_clock < u64::MAX - 1,
    ensures
        sender_clock != next_after_send(sender_clock),
        next_after_receive(
            next_after_receive(receiver_clock, sender_clock),
            next_after_send(sender_clock),
        ) > sender_clock,
        next_after_receive(
            next_after_receive(receiver_clock, sender_clock),
            next_after_send(sender_clock),
        ) > next_after_send(sender_clock),
        next_after_receive(
            next_after_receive(receiver_clock, next_after_send(sender_clock)),
            sender_clock,
        ) > sender_clock,
        next_after_receive(
            next_after_receive(receiver_clock, next_after_send(sender_clock)),
            sender_clock,
        ) > next_after_send(sender_clock),
{
}

} // verus!
