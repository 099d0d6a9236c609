use orbit_trail::drive::scan_goes_on;
use orbit_trail::drive::trail_goes_on;
use orbit_trail::stepper::StepCounter;
use orbit_trail::trail::flush_count;
use orbit_trail::trail::TrailBuffer;

#[test]
fn first_produced_step_is_one() {
    let mut c = StepCounter::new();
    assert_eq!(c.current(), 0);
    assert_eq!(c.advance(), 1);
    assert_eq!(c.current(), 1);
}

#[test]
fn steps_increase_by_exactly_one() {
    let mut c = StepCounter::new();
    let mut prev: u64 = c.advance();
    for _ in 0..6 {
        let next: u64 = c.advance();
        assert_eq!(next, prev + 1);
        prev = next;
    }
    assert_eq!(c.current(), 7);
}

#[test]
fn two_counters_stay_in_lockstep() {
    // Two independently constructed counters over the same run produce the
    // same step sequence.
    let mut a = StepCounter::new();
    let mut b = StepCounter::new();
    for _ in 0..10 {
        assert_eq!(a.advance(), b.advance());
    }
}

#[test]
fn buffer_starts_filled() {
    let b: TrailBuffer<(f64, f64)> = TrailBuffer::new(3, (0f64, 0f64));
    assert_eq!(b.len(), 3);
    assert_eq!(b.entries().clone(), vec![(0.0, 0.0), (0.0, 0.0), (0.0, 0.0)]);
}

#[test]
fn store_overwrites_slot_in_place() {
    let mut b: TrailBuffer<u64> = TrailBuffer::new(3, 0);
    assert!(!b.store(1, 11));
    assert!(!b.store(2, 22));
    assert!(b.store(3, 33)); // slot 0: the buffer wrapped
    assert_eq!(b.entries().clone(), vec![33, 11, 22]);
    assert!(!b.store(4, 44)); // slot 1 again, overwritten in place
    assert_eq!(b.entries().clone(), vec![33, 44, 22]);
    assert_eq!(b.len(), 3);
}

#[test]
fn single_slot_buffer_wraps_every_step() {
    // Unit worked run, step_limit = 1 and one slot: the first stored state is
    // the one produced from (x=1, y=0, vx=0, vy=1) with dt = 1, whose
    // position is (1, 1); it lands in slot 0 and is flushed at once. The run
    // also stores the following state (step 2) before noticing the bound, so
    // it flushes twice in all.
    let mut b: TrailBuffer<(f64, f64)> = TrailBuffer::new(1, (0.0, 0.0));
    let flush = b.store(1, (1.0, 1.0));
    assert!(flush);
    assert_eq!(b.entries().clone(), vec![(1.0, 1.0)]);
    assert_eq!(flush_count(1, 1), 2);
}

#[test]
fn flush_count_counts_wraps() {
    // Steps 1 ..= step_limit + 1 are stored; wraps are the multiples of the
    // buffer length among them.
    assert_eq!(flush_count(10, 3), 3); // wraps at steps 3, 6, 9 among 1..=11
    assert_eq!(flush_count(9, 5), 2); // wraps at steps 5 and 10
    assert_eq!(flush_count(0, 4), 0); // only step 1 is stored; no wrap
    assert_eq!(flush_count(7, 1), 8); // a one-slot buffer wraps on every step
}

#[test]
fn flush_cadence_when_length_divides_the_run() {
    // Whenever the buffer length divides step_limit + 1, the count equals
    // step_limit / buffer_length + 1.
    assert_eq!(flush_count(5, 3), 5 / 3 + 1);
    assert_eq!(flush_count(11, 4), 11 / 4 + 1);
    assert_eq!(flush_count(7, 1), 7 / 1 + 1);
}

#[test]
fn sizing_pass_stops_at_the_limit_inclusive() {
    assert!(scan_goes_on(4, 5));
    assert!(!scan_goes_on(5, 5));
    assert!(scan_goes_on(6, 5)); // the pass never reaches this state
}

#[test]
fn rendering_pass_stops_past_the_limit() {
    assert!(trail_goes_on(4, 5));
    assert!(trail_goes_on(5, 5)); // the limit step itself is rendered
    assert!(!trail_goes_on(6, 5));
}
