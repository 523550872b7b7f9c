//! A Lamport logical clock: a single monotonic counter advanced by two fused
//! read-modify-write operations, one for sending an event and one for
//! receiving an event from another process. The clock carries a ghost trace
//! of every operation applied to it, and its counter always equals the value
//! the trace prescribes.

use vstd::prelude::*;

verus! {

/// The counter value after stamping an outgoing event: the counter goes up by
/// one, wrapping at the width of the counter rather than failing.
pub open spec fn next_after_send(t: u64) -> u64 {
    if t == u64::MAX {
        0
    } else {
        (t + 1) as u64
    }
}

/// The larger of two counter values.
pub open spec fn max_u64(a: u64, b: u64) -> u64 {
    if a >= b {
        a
    } else {
        b
    }
}

/// The counter value after receiving an event carrying timestamp `received`
/// while the counter reads `t`: one past the larger of the two, wrapping at
/// the width of the counter rather than failing.
pub open spec fn next_after_receive(t: u64, received: u64) -> u64 {
    if max_u64(t, received) == u64::MAX {
        0
    } else {
        (max_u64(t, received) + 1) as u64
    }
}

/// One operation on a single process's clock: stamping an outgoing event, or
/// receiving an event carrying the given timestamp.
pub enum ClockOp {
    Send,
    Receive { received: u64 },
}

/// The clock value after applying one operation to a clock reading `t`.
pub open spec fn apply_op(t: u64, op: ClockOp) -> u64 {
    match op {
        ClockOp::Send => next_after_send(t),
        ClockOp::Receive { received } => next_after_receive(t, received),
    }
}

/// Whether one operation applied at clock reading `t` stays below the wrap
/// point of the counter.
pub open spec fn op_in_range(t: u64, op: ClockOp) -> bool {
    match op {
        ClockOp::Send => t < u64::MAX,
        ClockOp::Receive { received } => t < u64::MAX && received < u64::MAX,
    }
}

/// The clock value after a whole trace of operations, applied oldest first.
pub open spec fn clock_after(t: u64, ops: Seq<ClockOp>) -> u64
    decreases ops.len(),
{
    if ops.len() == 0 {
        t
    } else {
        clock_after(apply_op(t, ops[0]), ops.drop_first())
    }
}

/// Whether a whole trace stays below the wrap point from start to finish.
pub open spec fn trace_in_range(t: u64, ops: Seq<ClockOp>) -> bool
    decreases ops.len(),
{
    ops.len() == 0 || (op_in_range(t, ops[0]) && trace_in_range(
        apply_op(t, ops[0]),
        ops.drop_first(),
    ))
}

/// The successive clock readings a trace produces: element `i` is the
/// counter value right after operation `i`.
pub open spec fn readings(t: u64, ops: Seq<ClockOp>) -> Seq<u64>
    decreases ops.len(),
{
    if ops.len() == 0 {
        Seq::empty()
    } else {
        seq![apply_op(t, ops[0])] + readings(apply_op(t, ops[0]), ops.drop_first())
    }
}

/// Appending one operation to a trace applies it to the trace's final value.
pub proof fn lemma_clock_after_push(t: u64, ops: Seq<ClockOp>, op: ClockOp)
    ensures
        clock_after(t, ops.push(op)) == apply_op(clock_after(t, ops), op),
    decreases ops.len(),
{
    let pushed = ops.push(op);
    if ops.len() == 0 {
        assert(pushed[0] == op);
        assert(pushed.drop_first() =~= Seq::<ClockOp>::empty());
        assert(clock_after(t, pushed) == clock_after(apply_op(t, op), pushed.drop_first()));
        assert(clock_after(apply_op(t, op), Seq::<ClockOp>::empty()) == apply_op(t, op));
        assert(clock_after(t, ops) == t);
    } else {
        assert(pushed[0] == ops[0]);
        assert(pushed.drop_first() =~= ops.drop_first().push(op));
        lemma_clock_after_push(apply_op(t, ops[0]), ops.drop_first(), op);
        assert(clock_after(t, pushed) == clock_after(apply_op(t, ops[0]), pushed.drop_first()));
        assert(clock_after(t, ops) == clock_after(apply_op(t, ops[0]), ops.drop_first()));
    }
}

/// A per-process logical clock. The counter is reachable only through the
/// two bump operations, so every update is a fused read-modify-write; there
/// is no separate read-then-write pair for an interleaving to split. The
/// ghost trace records every operation, oldest first, and the counter always
/// equals `clock_after(0, trace)`.
pub struct LogicalClock {
    time: u64,
    history: Ghost<Seq<ClockOp>>,
}

impl LogicalClock {
    /// The counter always stands exactly where the recorded trace puts it.
    #[verifier::type_invariant]
    spec fn wf(self) -> bool {
        self.time == clock_after(0, self.history@)
    }

    /// The current counter value.
    pub closed spec fn value(self) -> u64 {
        self.time
    }

    /// The operations applied to this clock since it was created, oldest
    /// first.
    pub closed spec fn trace(self) -> Seq<ClockOp> {
        self.history@
    }

    /// A fresh clock reads zero and has seen no operations.
    pub fn new() -> (clock: LogicalClock)
        ensures
            clock.value() == 0,
            clock.trace() == Seq::<ClockOp>::empty(),
    {
        LogicalClock { time: 0, history: Ghost(Seq::empty()) }
    }

    /// Read the counter without advancing it. The reading is the one the
    /// clock's trace prescribes.
    pub fn read(&self) -> (t: u64)
        ensures
            t == self.value(),
            self.value() == clock_after(0, self.trace()),
    {
        proof {
            use_type_invariant(&*self);
        }
        self.time
    }

    /// Advance the clock for an outgoing event: increment the counter by one
    /// and return the value it held before, which becomes the event's
    /// timestamp. Wraps to zero at `u64::MAX` rather than failing.
    pub fn bump_for_send(&mut self) -> (timestamp: u64)
        ensures
            timestamp == old(self).value(),
            final(self).value() == next_after_send(old(self).value()),
            final(self).trace() == old(self).trace().push(ClockOp::Send),
            old(self).value() < u64::MAX ==> final(self).value() == old(self).value() + 1,
    {
        proof {
            use_type_invariant(&*self);
            lemma_clock_after_push(0, self.history@, ClockOp::Send);
        }
        let timestamp = self.time;
        let new_time = if timestamp == u64::MAX {
            0
        } else {
            timestamp + 1
        };
        *self = LogicalClock {
            time: new_time,
            history: Ghost(self.history@.push(ClockOp::Send)),
        };
        timestamp
    }

    /// Advance the clock past a received timestamp: replace the counter with
    /// one past the larger of the current value and `received`, and return
    /// the new value. Wraps to zero at `u64::MAX` rather than failing.
    pub fn bump_for_receive(&mut self, received: u64) -> (new_timestamp: u64)
        ensures
            new_timestamp == final(self).value(),
            final(self).value() == next_after_receive(old(self).value(), received),
            final(self).trace() == old(self).trace().push(ClockOp::Receive { received }),
            old(self).value() < u64::MAX && received < u64::MAX ==> (final(self).value()
                > old(self).value() && final(self).value() > received),
    {
        proof {
            use_type_invariant(&*self);
            lemma_clock_after_push(0, self.history@, ClockOp::Receive { received });
        }
        let current = self.time;
        let base = if current >= received {
            current
        } else {
            received
        };
        let new_timestamp = if base == u64::MAX {
            0
        } else {
            base + 1
        };
        *self = LogicalClock {
            time: new_timestamp,
            history: Ghost(self.history@.push(ClockOp::Receive { received })),
        };
        new_timestamp
    }
}

} // verus!
