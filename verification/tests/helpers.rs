use trazo::helpers::{handle_later_commands, later, LaterCommand, Timer};

#[test]
fn deferred_action_fires_once_after_cumulative_delay() {
    // a deferred action with delay 1.0 s, ticked with deltas 0.4, 0.4 and
    // 0.3 s, fires exactly once on the third tick (cumulative 1.1 s) and is
    // removed after firing.
    let mut pending: Vec<LaterCommand> = Vec::new();
    later(&mut pending, 1000, 7);
    assert_eq!(pending.len(), 1);

    assert_eq!(handle_later_commands(&mut pending, 400), Vec::<u64>::new());
    assert_eq!(pending.len(), 1);
    assert_eq!(handle_later_commands(&mut pending, 400), Vec::<u64>::new());
    assert_eq!(pending.len(), 1);
    assert_eq!(handle_later_commands(&mut pending, 300), vec![7]);
    assert_eq!(pending.len(), 0);

    // once removed, further ticks fire nothing.
    assert_eq!(handle_later_commands(&mut pending, 10_000), Vec::<u64>::new());
    assert_eq!(pending.len(), 0);
}

#[test]
fn delay_boundary_is_inclusive() {
    // the action runs no earlier than the delay has elapsed: a tick that
    // reaches the delay exactly fires it.
    let mut pending: Vec<LaterCommand> = Vec::new();
    later(&mut pending, 1000, 1);
    assert_eq!(handle_later_commands(&mut pending, 999), Vec::<u64>::new());
    assert_eq!(handle_later_commands(&mut pending, 1), vec![1]);
}

#[test]
fn zero_delay_fires_on_the_first_tick() {
    let mut pending: Vec<LaterCommand> = Vec::new();
    later(&mut pending, 0, 3);
    assert_eq!(handle_later_commands(&mut pending, 0), vec![3]);
    assert_eq!(pending.len(), 0);
}

#[test]
fn actions_fire_in_scheduling_order() {
    let mut pending: Vec<LaterCommand> = Vec::new();
    later(&mut pending, 500, 10);
    later(&mut pending, 200, 20);
    later(&mut pending, 800, 30);

    // first tick: only the 200 ms action fires.
    assert_eq!(handle_later_commands(&mut pending, 300), vec![20]);
    assert_eq!(pending.len(), 2);

    // second tick reaches both survivors; they fire in list order.
    assert_eq!(handle_later_commands(&mut pending, 600), vec![10, 30]);
    assert_eq!(pending.len(), 0);
}

#[test]
fn new_pairs_action_with_fresh_timer() {
    let c = LaterCommand::new(250, 42);
    assert_eq!(c.cmd, 42);
    assert_eq!(c.delay, Timer { elapsed_ms: 0, duration_ms: 250, finished: false });
}

#[test]
fn timer_clamps_and_reports_finishing_tick_only() {
    let mut t = Timer::from_millis(100);
    assert!(!t.tick(60));
    assert_eq!(t.elapsed_ms, 60);
    assert!(t.tick(60));
    assert_eq!(t.elapsed_ms, 100);
    assert!(t.finished);
    // already finished: later ticks are not "just finished".
    assert!(!t.tick(60));
    assert_eq!(t.elapsed_ms, 100);
}
