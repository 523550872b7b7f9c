use lamport_clock::clock::LogicalClock;
use lamport_clock::process::Event;
use lamport_clock::process::Process;

#[test]
fn clock_starts_at_zero() {
    let clock = LogicalClock::new();
    assert_eq!(clock.read(), 0);
}

#[test]
fn bump_for_send_returns_pre_increment_value() {
    let mut clock = LogicalClock::new();
    assert_eq!(clock.bump_for_send(), 0);
    assert_eq!(clock.read(), 1);
    assert_eq!(clock.bump_for_send(), 1);
    assert_eq!(clock.read(), 2);
}

#[test]
fn bump_for_receive_installs_max_plus_one() {
    let mut clock = LogicalClock::new();
    // received ahead of the clock
    assert_eq!(clock.bump_for_receive(7), 8);
    assert_eq!(clock.read(), 8);
    // received behind the clock
    assert_eq!(clock.bump_for_receive(3), 9);
    assert_eq!(clock.read(), 9);
    // received equal to the clock
    assert_eq!(clock.bump_for_receive(9), 10);
    assert_eq!(clock.read(), 10);
}

#[test]
fn bump_for_send_wraps_at_max() {
    let mut clock = LogicalClock::new();
    assert_eq!(clock.bump_for_receive(u64::MAX - 1), u64::MAX);
    assert_eq!(clock.bump_for_send(), u64::MAX);
    assert_eq!(clock.read(), 0);
}

#[test]
fn bump_for_receive_wraps_at_max() {
    let mut clock = LogicalClock::new();
    assert_eq!(clock.bump_for_receive(u64::MAX), 0);
    assert_eq!(clock.read(), 0);
}

#[test]
fn new_process_has_id_and_zero_clock() {
    let process = Process::new(42);
    assert_eq!(process.id(), 42);
    assert_eq!(process.clock_reading(), 0);
}

#[test]
fn stamp_event_carries_id_payload_and_pre_increment_time() {
    let mut process = Process::new(3);
    let event = process.stamp_event(17);
    assert_eq!(event.process_id, 3);
    assert_eq!(event.time, 0);
    assert_eq!(event.value, 17);
    assert_eq!(process.clock_reading(), 1);
}

#[test]
fn receive_event_advances_past_carried_timestamp() {
    let mut process = Process::new(1);
    process.receive_event(Event { process_id: 0, time: 5, value: 9 });
    assert_eq!(process.clock_reading(), 6);
    assert_eq!(process.id(), 1);
}

#[test]
fn scenario_two_process_exchange() {
    let mut p1 = Process::new(0);
    let mut p2 = Process::new(1);

    // p1 (clock 0) sends payload 5 to p2 (clock 0)
    let e1 = p1.send_event(5, &mut p2);
    assert_eq!(e1.process_id, 0);
    assert_eq!(e1.time, 0);
    assert_eq!(e1.value, 5);
    assert_eq!(p1.clock_reading(), 1);
    assert_eq!(p2.clock_reading(), 1);

    // p2 sends payload 9 back to p1
    let e2 = p2.send_event(9, &mut p1);
    assert_eq!(e2.process_id, 1);
    assert_eq!(e2.time, 1);
    assert_eq!(e2.value, 9);
    assert_eq!(p2.clock_reading(), 2);
    assert_eq!(p1.clock_reading(), 2);
}

#[test]
fn monotonicity_sequential_trace() {
    let mut process = Process::new(0);
    let mut readings: Vec<u64> = Vec::new();

    for round in 0..8u64 {
        if round % 2 == 0 {
            process.stamp_event(round as u32);
        } else {
            process.receive_event(Event { process_id: 1, time: 3 * round, value: 0 });
        }
        readings.push(process.clock_reading());
    }

    for window in readings.windows(2) {
        assert!(window[0] < window[1], "clock readings must strictly increase");
    }
}

#[test]
fn causality_receive_strictly_above_clock_and_timestamp() {
    let cases: [(u64, u64); 3] = [(10, 4), (4, 10), (7, 7)];
    for (start, carried) in cases {
        let mut process = Process::new(2);
        if start > 0 {
            // place the clock at `start` without a send
            process.receive_event(Event { process_id: 9, time: start - 1, value: 0 });
            assert_eq!(process.clock_reading(), start);
        }
        process.receive_event(Event { process_id: 9, time: carried, value: 0 });
        let after = process.clock_reading();
        assert_eq!(after, start.max(carried) + 1);
        assert!(after > carried);
        assert!(after > start);
    }
}

#[test]
fn no_lost_updates_interleaved_round_trips() {
    // three actors, four round trips each, interleaved against a shared pair
    let actors: u64 = 3;
    let rounds: u64 = 4;
    let mut p1 = Process::new(0);
    let mut p2 = Process::new(1);

    for round in 0..rounds {
        for actor in 0..actors {
            p1.send_event((round * actors + actor) as u32, &mut p2);
            p2.send_event((round * actors + actor) as u32, &mut p1);
        }
    }

    // each process's clock saw one send and one receive per round trip
    assert!(p1.clock_reading() >= actors * rounds);
    assert!(p2.clock_reading() >= actors * rounds);
}

#[test]
fn back_to_back_sends_received_in_order() {
    let mut sender = Process::new(0);
    let mut target = Process::new(1);
    let first = sender.send_event(1, &mut target);
    let second = sender.send_event(2, &mut target);
    assert_eq!(first.time, 0);
    assert_eq!(second.time, 1);
    assert!(first.time < second.time);
    assert!(target.clock_reading() > second.time);
}

#[test]
fn race_two_sends_distinct_stamps_either_arrival_order() {
    // two actors each draw a stamp from p1's clock before either delivery
    let mut p1 = Process::new(0);
    let first = p1.stamp_event(11);
    let second = p1.stamp_event(22);
    assert_eq!(first.time, 0);
    assert_eq!(second.time, 1);
    assert_ne!(first.time, second.time);

    // arrival order: first then second
    let mut receiver_a = Process::new(1);
    receiver_a.receive_event(first);
    receiver_a.receive_event(second);
    assert!(receiver_a.clock_reading() > first.time);
    assert!(receiver_a.clock_reading() > second.time);

    // arrival order: second then first
    let mut receiver_b = Process::new(1);
    receiver_b.receive_event(second);
    receiver_b.receive_event(first);
    assert!(receiver_b.clock_reading() > first.time);
    assert!(receiver_b.clock_reading() > second.time);
}
