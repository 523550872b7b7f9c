//! A participant in the event exchange: an immutable identity plus one
//! logical clock. Every clock access goes through stamping an outgoing event
//! or receiving an incoming one.

use vstd::prelude::*;
use crate::clock::ClockOp;
use crate::clock::LogicalClock;
use crate::clock::clock_after;
use crate::clock::next_after_receive;
use crate::clock::next_after_send;

verus! {

/// An event exchanged between processes, immutable once stamped: the id of
/// the process that produced it, the Lamport timestamp its clock assigned,
/// and an opaque payload.
#[derive(Clone, Copy, Debug, PartialEq, Eq, Structural)]
pub struct Event {
    pub process_id: u64,
    pub time: u64,
    pub value: u32,
}

/// A process: a unique immutable id and the logical clock that orders its
/// events.
pub struct Process {
    id: u64,
    clock: LogicalClock,
}

impl Process {
    /// This process's id. No operation ever changes it.
    pub closed spec fn id_spec(self) -> u64 {
        self.id
    }

    /// The current reading of this process's clock.
    pub closed spec fn clock_value(self) -> u64 {
        self.clock.value()
    }

    /// The operations applied to this process's clock since the process was
    /// created, oldest first.
    pub closed spec fn trace(self) -> Seq<ClockOp> {
        self.clock.trace()
    }

    /// A new process starts with its clock at zero.
    pub fn new(id: u64) -> (process: Process)
        ensures
            process.id_spec() == id,
            process.clock_value() == 0,
            process.trace() == Seq::<ClockOp>::empty(),
    {
        Process { id, clock: LogicalClock::new() }
    }

    /// This process's id.
    pub fn id(&self) -> (id: u64)
        ensures
            id == self.id_spec(),
    {
        self.id
    }

    /// Read this process's clock without advancing it.
    pub fn clock_reading(&self) -> (t: u64)
        ensures
            t == self.clock_value(),
            self.clock_value() == clock_after(0, self.trace()),
    {
        self.clock.read()
    }

    /// Stamp a new outgoing event: bump the clock for a send and build the
    /// event from the pre-increment reading. The caller delivers the event;
    /// splitting stamping from delivery lets a driver hold each process
    /// behind its own lock.
    pub fn stamp_event(&mut self, value: u32) -> (event: Event)
        ensures
            final(self).id_spec() == old(self).id_spec(),
            event.process_id == old(self).id_spec(),
            event.time == old(self).clock_value(),
            event.value == value,
            final(self).clock_value() == next_after_send(old(self).clock_value()),
            final(self).trace() == old(self).trace().push(ClockOp::Send),
    {
        let time = self.clock.bump_for_send();
        Event { process_id: self.id, time, value }
    }

    /// Receive an event: advance this process's clock causally past the
    /// timestamp the event carries.
    pub fn receive_event(&mut self, event: Event)
        ensures
            final(self).id_spec() == old(self).id_spec(),
            final(self).clock_value() == next_after_receive(
                old(self).clock_value(),
                event.time,
            ),
            final(self).trace() == old(self).trace().push(
                ClockOp::Receive { received: event.time },
            ),
            old(self).clock_value() < u64::MAX && event.time < u64::MAX ==> (
            final(self).clock_value() > old(self).clock_value() && final(self).clock_value()
                > event.time),
    {
        self.clock.bump_for_receive(event.time);
    }

    /// Send an event to another process: stamp it with this process's clock,
    /// then deliver it synchronously to the target, whose clock advances past
    /// the stamped timestamp. Returns the event that was delivered, so a
    /// caller can report it.
    pub fn send_event(&mut self, value: u32, target: &mut Process) -> (event: Event)
        ensures
            final(self).id_spec() == old(self).id_spec(),
            final(target).id_spec() == old(target).id_spec(),
            event.process_id == old(self).id_spec(),
            event.time == old(self).clock_value(),
            event.value == value,
            final(self).clock_value() == next_after_send(old(self).clock_value()),
            final(target).clock_value() == next_after_receive(
                old(target).clock_value(),
                old(self).clock_value(),
            ),
            final(self).trace() == old(self).trace().push(ClockOp::Send),
            final(target).trace() == old(target).trace().push(
                ClockOp::Receive { received: old(self).clock_value() },
            ),
    {
        let event = self.stamp_event(value);
        target.receive_event(event);
        event
    }
}

} // verus!
