use aefi_scan_engine::error::ArcusError;
use aefi_scan_engine::scan::{
    is_within, poll_until, OnError, PollOutcome, ScanAction, ScanCoordinator, ScanEvent,
    SCAN_AXIS, START_PAUSE_US, START_TOLERANCE, STEP_PAUSE_US, STEP_TOLERANCE,
};

/// A stage that is at the requested target as soon as it is asked to move.
struct PromptStage {
    position: i32,
    moves: Vec<i32>,
    queries: usize,
    slept_us: Vec<u64>,
}

fn prompt_stage() -> PromptStage {
    PromptStage { position: 0, moves: Vec::new(), queries: 0, slept_us: Vec::new() }
}

fn perform(stage: &mut PromptStage, action: &ScanAction) -> Option<ScanEvent> {
    match action {
        ScanAction::MoveTo(axis, position) => {
            assert_eq!(*axis, 'x');
            stage.position = *position;
            stage.moves.push(*position);
            Some(ScanEvent::Moved(Ok(())))
        }
        ScanAction::GetPosition(axis) => {
            assert_eq!(*axis, 'x');
            stage.queries += 1;
            Some(ScanEvent::Position(Ok(stage.position)))
        }
        ScanAction::Sleep(micros) => {
            stage.slept_us.push(*micros);
            Some(ScanEvent::Slept)
        }
        ScanAction::Finish | ScanAction::Fail(_) => None,
    }
}

/// Runs a scan against a prompt stage for at most `limit` actions.
fn run_prompt(
    x_min: i32,
    x_max: i32,
    step: i32,
    limit: usize,
) -> (PromptStage, ScanCoordinator, usize) {
    let mut stage = prompt_stage();
    let mut scan = ScanCoordinator::start_scan(x_min, x_max, step);
    let mut performed = 0;
    while performed < limit {
        let action = scan.action();
        match perform(&mut stage, &action) {
            Some(event) => {
                if !scan.accepts(&event) {
                    break;
                }
                scan = scan.advance(event);
                performed += 1;
            }
            None => break,
        }
    }
    (stage, scan, performed)
}

/// Feeds the events in order and gives the action that is due after each.
fn actions_after(scan: ScanCoordinator, events: Vec<ScanEvent>) -> (ScanCoordinator, Vec<ScanAction>) {
    let mut scan = scan;
    let mut actions = Vec::new();
    for event in events {
        assert!(scan.accepts(&event));
        scan = scan.advance(event);
        actions.push(scan.action());
    }
    (scan, actions)
}

fn moved() -> ScanEvent {
    ScanEvent::Moved(Ok(()))
}

fn at(position: i32) -> ScanEvent {
    ScanEvent::Position(Ok(position))
}

fn query_failed(e: ArcusError) -> ScanEvent {
    ScanEvent::Position(Err(e))
}

#[test]
fn constants_of_the_scan() {
    assert_eq!(SCAN_AXIS, 'x');
    assert_eq!(START_TOLERANCE, 10);
    assert_eq!(STEP_TOLERANCE, 5);
    assert_eq!(START_PAUSE_US, 10_000);
    assert_eq!(STEP_PAUSE_US, 100);
}

#[test]
fn scan_of_three_targets_with_a_prompt_stage() {
    let (stage, scan, _) = run_prompt(0, 10, 5, 1000);
    assert_eq!(scan.action(), ScanAction::Finish);
    assert_eq!(scan.into_results(), Some(vec![(0, 0), (5, 5), (10, 10)]));
    assert_eq!(stage.moves, vec![0, 0, 5, 10]);
    assert_eq!(stage.queries, 4);
    assert_eq!(stage.slept_us, Vec::<u64>::new());
}

#[test]
fn scan_action_by_action() {
    let scan = ScanCoordinator::start_scan(0, 10, 5);
    assert_eq!(scan.action(), ScanAction::MoveTo('x', 0));
    let (scan, actions) = actions_after(
        scan,
        vec![moved(), at(0), moved(), at(0), moved(), at(5), moved(), at(10)],
    );
    assert_eq!(
        actions,
        vec![
            ScanAction::GetPosition('x'),
            ScanAction::MoveTo('x', 0),
            ScanAction::GetPosition('x'),
            ScanAction::MoveTo('x', 5),
            ScanAction::GetPosition('x'),
            ScanAction::MoveTo('x', 10),
            ScanAction::GetPosition('x'),
            ScanAction::Finish,
        ]
    );
    assert_eq!(scan.failure(), None);
    assert_eq!(scan.into_results(), Some(vec![(0, 0), (5, 5), (10, 10)]));
}

#[test]
fn last_target_may_fall_short_of_the_end() {
    let (_, scan, _) = run_prompt(0, 10, 4, 1000);
    assert_eq!(scan.into_results(), Some(vec![(0, 0), (4, 4), (8, 8)]));
}

#[test]
fn single_target_when_the_range_is_a_point() {
    let (_, scan, _) = run_prompt(7, 7, 3, 1000);
    assert_eq!(scan.into_results(), Some(vec![(7, 7)]));
}

#[test]
fn negative_range() {
    let (_, scan, _) = run_prompt(-10, -4, 3, 1000);
    assert_eq!(scan.into_results(), Some(vec![(-10, -10), (-7, -7), (-4, -4)]));
}

#[test]
fn empty_range_finishes_after_arrival_at_the_start() {
    let scan = ScanCoordinator::start_scan(10, 0, 5);
    assert_eq!(scan.action(), ScanAction::MoveTo('x', 10));
    let (scan, actions) = actions_after(scan, vec![moved(), at(10)]);
    assert_eq!(actions, vec![ScanAction::GetPosition('x'), ScanAction::Finish]);
    assert_eq!(scan.into_results(), Some(Vec::new()));
}

#[test]
fn empty_range_finishes_whatever_the_step() {
    for step in [-5, 0, 5] {
        let (_, scan, _) = run_prompt(1, 0, step, 1000);
        assert_eq!(scan.into_results(), Some(Vec::new()));
    }
}

#[test]
fn measured_positions_are_recorded_not_targets() {
    let scan = ScanCoordinator::start_scan(0, 10, 5);
    let (scan, _) = actions_after(
        scan,
        vec![moved(), at(-9), moved(), at(4), moved(), at(1), moved(), at(14)],
    );
    assert_eq!(scan.into_results(), Some(vec![(0, 4), (5, 1), (10, 14)]));
}

#[test]
fn waits_at_the_start_until_within_ten() {
    let scan = ScanCoordinator::start_scan(100, 110, 5);
    let (_, actions) = actions_after(
        scan,
        vec![moved(), at(0), ScanEvent::Slept, at(90), ScanEvent::Slept, at(110), ScanEvent::Slept, at(91)],
    );
    assert_eq!(
        actions,
        vec![
            ScanAction::GetPosition('x'),
            ScanAction::Sleep(10_000),
            ScanAction::GetPosition('x'),
            ScanAction::Sleep(10_000),
            ScanAction::GetPosition('x'),
            ScanAction::Sleep(10_000),
            ScanAction::GetPosition('x'),
            ScanAction::MoveTo('x', 100),
        ]
    );
}

#[test]
fn start_tolerance_is_strict() {
    for (position, arrived) in [(91, true), (109, true), (100, true), (90, false), (110, false)] {
        let scan = ScanCoordinator::start_scan(100, 200, 50);
        let (_, actions) = actions_after(scan, vec![moved(), at(position)]);
        let expected = if arrived { ScanAction::MoveTo('x', 100) } else { ScanAction::Sleep(10_000) };
        assert_eq!(actions[1], expected, "at {}", position);
    }
}

#[test]
fn step_tolerance_is_strict() {
    for (position, arrived) in [(96, true), (104, true), (100, true), (95, false), (105, false)] {
        let scan = ScanCoordinator::start_scan(100, 200, 50);
        let (_, actions) = actions_after(scan, vec![moved(), at(100), moved(), at(position)]);
        let expected = if arrived { ScanAction::MoveTo('x', 150) } else { ScanAction::Sleep(100) };
        assert_eq!(actions[3], expected, "at {}", position);
    }
}

#[test]
fn polls_at_a_target_until_within_five() {
    let scan = ScanCoordinator::start_scan(0, 0, 1);
    let (scan, actions) = actions_after(
        scan,
        vec![moved(), at(9), moved(), at(9), ScanEvent::Slept, at(5), ScanEvent::Slept, at(-4)],
    );
    assert_eq!(
        actions,
        vec![
            ScanAction::GetPosition('x'),
            ScanAction::MoveTo('x', 0),
            ScanAction::GetPosition('x'),
            ScanAction::Sleep(100),
            ScanAction::GetPosition('x'),
            ScanAction::Sleep(100),
            ScanAction::GetPosition('x'),
            ScanAction::Finish,
        ]
    );
    assert_eq!(scan.into_results(), Some(vec![(0, -4)]));
}

#[test]
fn failed_queries_at_the_start_are_dropped() {
    let scan = ScanCoordinator::start_scan(0, 0, 1);
    let (scan, actions) = actions_after(
        scan,
        vec![
            moved(),
            query_failed(ArcusError::Timeout),
            ScanEvent::Slept,
            query_failed(ArcusError::InvalidResponse("?".to_string())),
            ScanEvent::Slept,
            query_failed(ArcusError::Io("glitch".to_string())),
            ScanEvent::Slept,
            at(0),
        ],
    );
    assert_eq!(
        actions,
        vec![
            ScanAction::GetPosition('x'),
            ScanAction::Sleep(10_000),
            ScanAction::GetPosition('x'),
            ScanAction::Sleep(10_000),
            ScanAction::GetPosition('x'),
            ScanAction::Sleep(10_000),
            ScanAction::GetPosition('x'),
            ScanAction::MoveTo('x', 0),
        ]
    );
    assert_eq!(scan.failure(), None);
}

#[test]
fn failed_query_in_the_sweep_ends_the_scan() {
    let scan = ScanCoordinator::start_scan(0, 10, 5);
    let (scan, actions) = actions_after(
        scan,
        vec![moved(), at(0), moved(), at(0), moved(), query_failed(ArcusError::Timeout)],
    );
    assert_eq!(actions[5], ScanAction::Fail(ArcusError::Timeout));
    assert_eq!(scan.failure(), Some(ArcusError::Timeout));
    assert_eq!(scan.into_results(), None);
}

#[test]
fn failed_query_in_the_sweep_gives_that_failure() {
    for e in [
        ArcusError::Timeout,
        ArcusError::Io("reset".to_string()),
        ArcusError::InvalidResponse("ERR".to_string()),
    ] {
        let scan = ScanCoordinator::start_scan(0, 10, 5);
        let (scan, actions) = actions_after(
            scan,
            vec![moved(), at(0), moved(), at(9), ScanEvent::Slept, query_failed(e.clone())],
        );
        assert_eq!(actions[5], ScanAction::Fail(e.clone()));
        assert_eq!(scan.into_results(), None);
    }
}

#[test]
fn failed_move_ends_the_scan() {
    let e = ArcusError::Io("write failed".to_string());
    let scan = ScanCoordinator::start_scan(0, 10, 5);
    let (scan, actions) = actions_after(scan, vec![ScanEvent::Moved(Err(e.clone()))]);
    assert_eq!(actions, vec![ScanAction::Fail(e.clone())]);
    assert_eq!(scan.into_results(), None);

    let scan = ScanCoordinator::start_scan(0, 10, 5);
    let (scan, actions) = actions_after(
        scan,
        vec![moved(), at(0), moved(), at(0), ScanEvent::Moved(Err(e.clone()))],
    );
    assert_eq!(actions[4], ScanAction::Fail(e.clone()));
    assert_eq!(scan.failure(), Some(e));
    assert_eq!(scan.into_results(), None);
}

#[test]
fn nothing_is_returned_before_the_scan_is_complete() {
    let scan = ScanCoordinator::start_scan(0, 10, 5);
    let (scan, _) = actions_after(scan, vec![moved(), at(0), moved(), at(0), moved()]);
    assert_eq!(scan.into_results(), None);
}

#[test]
fn a_scan_that_is_over_stays_as_it_is() {
    let (_, scan, _) = run_prompt(0, 0, 1, 100);
    let (scan, actions) = actions_after(scan, vec![moved(), at(0), ScanEvent::Slept]);
    assert_eq!(actions, vec![ScanAction::Finish, ScanAction::Finish, ScanAction::Finish]);
    assert_eq!(scan.into_results(), Some(vec![(0, 0)]));

    let scan = ScanCoordinator::start_scan(0, 0, 1);
    let (_, actions) = actions_after(
        scan,
        vec![ScanEvent::Moved(Err(ArcusError::Timeout)), moved(), at(0), ScanEvent::Slept],
    );
    assert_eq!(actions, vec![ScanAction::Fail(ArcusError::Timeout); 4]);
}

#[test]
fn an_event_that_answers_nothing_changes_nothing() {
    let scan = ScanCoordinator::start_scan(0, 10, 5);
    let (scan, actions) = actions_after(scan, vec![ScanEvent::Slept, at(0)]);
    assert_eq!(actions, vec![ScanAction::MoveTo('x', 0), ScanAction::MoveTo('x', 0)]);
    let (scan, actions) = actions_after(scan, vec![moved(), moved(), ScanEvent::Slept]);
    assert_eq!(actions, vec![ScanAction::GetPosition('x'); 3]);
    let (_, actions) = actions_after(scan, vec![at(50), at(0), moved()]);
    assert_eq!(actions, vec![ScanAction::Sleep(10_000); 3]);
}

#[test]
fn zero_step_never_finishes() {
    let limit = 20_000;
    let (stage, scan, performed) = run_prompt(0, 10, 0, limit);
    assert_eq!(performed, limit);
    assert!(scan.action() != ScanAction::Finish);
    assert_eq!(scan.failure(), None);
    assert_eq!(scan.into_results(), None);
    assert!(stage.moves.iter().all(|&target| target == 0));
    assert_eq!(stage.moves.len(), 1 + (limit - 2) / 2);
    assert_eq!(stage.queries, 1 + (limit - 2) / 2);
}

#[test]
fn negative_step_never_finishes() {
    let limit = 20_000;
    let (stage, scan, performed) = run_prompt(0, 10, -3, limit);
    assert_eq!(performed, limit);
    assert!(scan.action() != ScanAction::Finish);
    assert_eq!(scan.failure(), None);
    assert_eq!(scan.into_results(), None);
    assert_eq!(&stage.moves[..5], &[0, 0, -3, -6, -9]);
    for pair in stage.moves[1..].windows(2) {
        assert_eq!(pair[1], pair[0] - 3);
    }
}

#[test]
fn non_positive_step_still_ends_on_failure() {
    let scan = ScanCoordinator::start_scan(0, 10, 0);
    let (scan, actions) = actions_after(
        scan,
        vec![moved(), at(0), moved(), at(0), moved(), query_failed(ArcusError::Timeout)],
    );
    assert_eq!(actions[5], ScanAction::Fail(ArcusError::Timeout));
    assert_eq!(scan.into_results(), None);
}

#[test]
fn sweep_ends_where_the_next_target_is_beyond_every_position() {
    let (_, scan, _) = run_prompt(i32::MAX - 3, i32::MAX, 2, 1000);
    assert_eq!(
        scan.into_results(),
        Some(vec![(i32::MAX - 3, i32::MAX - 3), (i32::MAX - 1, i32::MAX - 1)])
    );
    let (_, scan, _) = run_prompt(0, i32::MAX, i32::MAX, 1000);
    assert_eq!(scan.into_results(), Some(vec![(0, 0), (i32::MAX, i32::MAX)]));
}

#[test]
fn a_target_below_every_position_is_not_accepted() {
    let scan = ScanCoordinator::start_scan(i32::MIN + 1, 0, -2);
    let (scan, actions) = actions_after(scan, vec![moved(), at(i32::MIN + 1), moved()]);
    assert_eq!(actions[2], ScanAction::GetPosition('x'));
    assert!(!scan.accepts(&at(i32::MIN + 1)));
    assert!(scan.accepts(&at(0)));
    assert!(scan.accepts(&query_failed(ArcusError::Timeout)));
    assert!(scan.accepts(&ScanEvent::Slept));

    let scan = ScanCoordinator::start_scan(i32::MIN + 2, 0, -2);
    let (scan, _) = actions_after(scan, vec![moved(), at(i32::MIN + 2), moved()]);
    assert!(scan.accepts(&at(i32::MIN + 2)));
    let scan = scan.advance(at(i32::MIN + 2));
    assert_eq!(scan.action(), ScanAction::MoveTo('x', i32::MIN));
}

#[test]
fn distance_is_taken_without_overflow() {
    assert!(!is_within(i32::MAX, i32::MIN, 10));
    assert!(!is_within(i32::MIN, i32::MAX, 10));
    assert!(is_within(i32::MAX, i32::MAX - 9, 10));
    assert!(!is_within(i32::MAX, i32::MAX - 10, 10));
    assert!(is_within(i32::MIN, i32::MIN + 4, 5));
    assert!(!is_within(i32::MIN + 5, i32::MIN, 5));
    assert!(!is_within(0, 0, 0));
    assert!(is_within(0, 0, 1));
}

#[test]
fn poll_until_judges_a_reading() {
    assert_eq!(poll_until(100, 10, OnError::Ignore, Ok(95)), PollOutcome::Arrived(95));
    assert_eq!(poll_until(100, 10, OnError::Ignore, Ok(90)), PollOutcome::Retry);
    assert_eq!(poll_until(100, 5, OnError::Propagate, Ok(104)), PollOutcome::Arrived(104));
    assert_eq!(poll_until(100, 5, OnError::Propagate, Ok(105)), PollOutcome::Retry);
    assert_eq!(
        poll_until(100, 10, OnError::Ignore, Err(ArcusError::Timeout)),
        PollOutcome::Retry
    );
    assert_eq!(
        poll_until(100, 5, OnError::Propagate, Err(ArcusError::Timeout)),
        PollOutcome::Abort(ArcusError::Timeout)
    );
}

#[test]
fn try_advance_hands_back_a_scan_that_cannot_go_on() {
    let scan = ScanCoordinator::start_scan(i32::MIN + 1, 0, -2);
    let (scan, _) = actions_after(scan, vec![moved(), at(i32::MIN + 1), moved()]);
    let scan = match scan.try_advance(at(i32::MIN + 1)) {
        Err(same) => same,
        Ok(_) => panic!("a target below every position was accepted"),
    };
    assert_eq!(scan.action(), ScanAction::GetPosition('x'));
    let scan = match scan.try_advance(at(0)) {
        Ok(next) => next,
        Err(_) => panic!("a reading away from the target was not accepted"),
    };
    assert_eq!(scan.action(), ScanAction::Sleep(100));
}
