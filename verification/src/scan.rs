//! The raster scan along one axis: move to the start, wait for arrival, then
//! for each target of the sweep move, poll until the stage is within
//! tolerance and record where it was measured.
//!
//! The scan is a state machine.  Its state says which driver operation or
//! pause is due; the shell performs it and hands back what happened.

use vstd::prelude::*;
use crate::error::ArcusError;

verus! {

/// The axis that a scan sweeps.
pub const SCAN_AXIS: char = 'x';

/// How close to the start the stage must be measured before the sweep begins.
pub const START_TOLERANCE: i32 = 10;

/// How close to a target of the sweep the stage must be measured to be
/// recorded there.
pub const STEP_TOLERANCE: i32 = 5;

/// The pause between two polls while waiting at the start, in microseconds.
pub const START_PAUSE_US: u64 = 10_000;

/// The pause between two polls at a target of the sweep, in microseconds.
pub const STEP_PAUSE_US: u64 = 100;

/// Whether `position` is within `tolerance` of `target`: their distance is
/// less than the tolerance.
pub open spec fn within(position: int, target: int, tolerance: int) -> bool {
    -tolerance < position - target < tolerance
}

/// What a poll does when the position query itself fails.
#[derive(Debug, Clone, Copy, PartialEq, Eq)]
pub enum OnError {
    /// The failure is dropped and the poll goes on.
    Ignore,
    /// The failure ends the poll.
    Propagate,
}

/// What one position reading means to a poll.
#[derive(Debug, Clone, PartialEq, Eq)]
pub enum PollOutcome {
    /// The stage was measured within tolerance, at this position.
    Arrived(i32),
    /// Not there yet: pause, then ask again.
    Retry,
    /// The poll ends with this failure.
    Abort(ArcusError),
}

/// What the reading `reading` means to a poll for `target`.
pub open spec fn poll_outcome(
    target: int,
    tolerance: int,
    on_error: OnError,
    reading: Result<i32, ArcusError>,
) -> PollOutcome {
    match reading {
        Ok(position) => if within(position as int, target, tolerance) {
            PollOutcome::Arrived(position)
        } else {
            PollOutcome::Retry
        },
        Err(e) => match on_error {
            OnError::Ignore => PollOutcome::Retry,
            OnError::Propagate => PollOutcome::Abort(e),
        },
    }
}

/// Whether `position` is within `tolerance` of `target`.
pub fn is_within(position: i32, target: i32, tolerance: i32) -> (r: bool)
    ensures
        r == within(position as int, target as int, tolerance as int),
{
    let distance: i64 = position as i64 - target as i64;
    -(tolerance as i64) < distance && distance < tolerance as i64
}

/// One step of polling until the stage is within `tolerance` of `target`:
/// judges the reading that the latest position query gave.
pub fn poll_until(
    target: i32,
    tolerance: i32,
    on_error: OnError,
    reading: Result<i32, ArcusError>,
) -> (outcome: PollOutcome)
    ensures
        outcome == poll_outcome(target as int, tolerance as int, on_error, reading),
{
    match reading {
        Ok(position) => if is_within(position, target, tolerance) {
            PollOutcome::Arrived(position)
        } else {
            PollOutcome::Retry
        },
        Err(e) => match on_error {
            OnError::Ignore => PollOutcome::Retry,
            OnError::Propagate => PollOutcome::Abort(e),
        },
    }
}

/// Where a scan stands.  In each phase but the last two one action is due.
#[derive(Debug, Clone, PartialEq, Eq)]
pub enum Phase {
    /// The move to the start is due.
    MovingToStart,
    /// A position query is due, while waiting for arrival at the start.
    AwaitingStart,
    /// A pause is due, while waiting for arrival at the start.
    PausingAtStart,
    /// The move to the current target of the sweep is due.
    Moving,
    /// A position query is due, at the current target of the sweep.
    Polling,
    /// A pause is due, at the current target of the sweep.
    Pausing,
    /// The sweep is complete.
    Finished,
    /// The scan was given up for this failure.
    Failed(ArcusError),
}

/// What the shell is to do next.
#[derive(Debug, Clone, PartialEq, Eq)]
pub enum ScanAction {
    /// Move the axis to the absolute position, then report `Moved`.
    MoveTo(char, i32),
    /// Query the position of the axis, then report `Position`.
    GetPosition(char),
    /// Sleep for so many microseconds, then report `Slept`.
    Sleep(u64),
    /// Nothing more: the scan is complete and its results can be taken.
    Finish,
    /// Nothing more: the scan failed.
    Fail(ArcusError),
}

/// What the shell reports back.
#[derive(Debug, PartialEq, Eq)]
pub enum ScanEvent {
    /// The outcome of a move.
    Moved(Result<(), ArcusError>),
    /// The outcome of a position query.
    Position(Result<i32, ArcusError>),
    /// A pause is over.
    Slept,
}

/// An action over the integers: the target of a move may lie outside the
/// range of a position.
pub enum ActionView {
    /// Move the axis to the absolute position.
    MoveTo(char, int),
    /// Query the position of the axis.
    GetPosition(char),
    /// Sleep for so many microseconds.
    Sleep(int),
    /// The scan is complete.
    Finish,
    /// The scan failed.
    Fail(ArcusError),
}

impl View for ScanAction {
    type V = ActionView;

    open spec fn view(&self) -> ActionView {
        match *self {
            ScanAction::MoveTo(axis, position) => ActionView::MoveTo(axis, position as int),
            ScanAction::GetPosition(axis) => ActionView::GetPosition(axis),
            ScanAction::Sleep(micros) => ActionView::Sleep(micros as int),
            ScanAction::Finish => ActionView::Finish,
            ScanAction::Fail(e) => ActionView::Fail(e),
        }
    }
}

/// A scan over the integers.
pub struct ScanState {
    pub x_min: int,
    pub x_max: int,
    pub step: int,
    pub phase: Phase,
    /// The current target of the sweep.
    pub current: int,
    /// The pairs of target and measured position recorded so far.
    pub results: Seq<(i32, i32)>,
}

/// The `k`-th target of a sweep from `x_min` in increments of `step`.
pub open spec fn sweep_target(x_min: int, step: int, k: int) -> int {
    x_min + k * step
}

impl ScanState {
    /// Whether each recorded pair is for the target of its place in the
    /// sweep, which is not beyond `x_max`, and holds a position measured
    /// within the tolerance of that target.
    pub open spec fn recorded_in_order(self) -> bool {
        forall|i: int|
            0 <= i < self.results.len() ==> {
                &&& (#[trigger] self.results[i]).0 == sweep_target(self.x_min, self.step, i)
                &&& self.results[i].0 <= self.x_max
                &&& within(
                    self.results[i].1 as int,
                    self.results[i].0 as int,
                    STEP_TOLERANCE as int,
                )
            }
    }

    /// Whether the state is one that a scan can be in.  Before the sweep
    /// nothing is recorded.  During the sweep the pairs recorded are those of
    /// the targets before the current one, which is itself within the range.
    /// A finished scan has recorded every target up to the first one beyond
    /// `x_max`.  A failed scan holds no pairs.
    pub open spec fn wf(self) -> bool {
        match self.phase {
            Phase::MovingToStart | Phase::AwaitingStart | Phase::PausingAtStart => {
                &&& self.results.len() == 0
                &&& self.current == self.x_min
            },
            Phase::Moving | Phase::Polling | Phase::Pausing => {
                &&& self.recorded_in_order()
                &&& self.current == sweep_target(self.x_min, self.step, self.results.len() as int)
                &&& i32::MIN <= self.current <= self.x_max
            },
            Phase::Finished => {
                &&& self.recorded_in_order()
                &&& sweep_target(self.x_min, self.step, self.results.len() as int) > self.x_max
            },
            Phase::Failed(_) => self.results.len() == 0,
        }
    }

    /// The action that is due in this state.
    pub open spec fn action(self) -> ActionView {
        match self.phase {
            Phase::MovingToStart => ActionView::MoveTo(SCAN_AXIS, self.x_min),
            Phase::AwaitingStart => ActionView::GetPosition(SCAN_AXIS),
            Phase::PausingAtStart => ActionView::Sleep(START_PAUSE_US as int),
            Phase::Moving => ActionView::MoveTo(SCAN_AXIS, self.current),
            Phase::Polling => ActionView::GetPosition(SCAN_AXIS),
            Phase::Pausing => ActionView::Sleep(STEP_PAUSE_US as int),
            Phase::Finished => ActionView::Finish,
            Phase::Failed(e) => ActionView::Fail(e),
        }
    }

    /// The state in which the scan is given up for `e`: what was recorded is
    /// dropped.
    pub open spec fn failed(self, e: ArcusError) -> ScanState {
        ScanState { phase: Phase::Failed(e), results: Seq::empty(), ..self }
    }

    /// The state after arrival at the start: the sweep begins at `x_min`, or
    /// is complete at once where `x_min` is beyond `x_max`.
    pub open spec fn sweep_begun(self) -> ScanState {
        if self.x_min <= self.x_max {
            ScanState { phase: Phase::Moving, current: self.x_min, ..self }
        } else {
            ScanState { phase: Phase::Finished, ..self }
        }
    }

    /// The state after the stage was measured at `position`, within tolerance
    /// of the current target: the pair is recorded, and the sweep goes on to
    /// the next target or is complete where that is beyond `x_max`.
    pub open spec fn recorded(self, position: i32) -> ScanState {
        let results = self.results.push((self.current as i32, position));
        if self.current + self.step <= self.x_max {
            ScanState { phase: Phase::Moving, current: self.current + self.step, results, ..self }
        } else {
            ScanState { phase: Phase::Finished, results, ..self }
        }
    }

    /// The state after `event`.  An event that does not answer the action
    /// that is due changes nothing.
    pub open spec fn after(self, event: ScanEvent) -> ScanState {
        match (self.phase, event) {
            (Phase::MovingToStart, ScanEvent::Moved(Ok(_))) => ScanState {
                phase: Phase::AwaitingStart,
                ..self
            },
            (Phase::MovingToStart, ScanEvent::Moved(Err(e))) => self.failed(e),
            (Phase::AwaitingStart, ScanEvent::Position(reading)) => match poll_outcome(
                self.x_min,
                START_TOLERANCE as int,
                OnError::Ignore,
                reading,
            ) {
                PollOutcome::Arrived(_) => self.sweep_begun(),
                PollOutcome::Retry => ScanState { phase: Phase::PausingAtStart, ..self },
                PollOutcome::Abort(e) => self.failed(e),
            },
            (Phase::PausingAtStart, ScanEvent::Slept) => ScanState {
                phase: Phase::AwaitingStart,
                ..self
            },
            (Phase::Moving, ScanEvent::Moved(Ok(_))) => ScanState { phase: Phase::Polling, ..self },
            (Phase::Moving, ScanEvent::Moved(Err(e))) => self.failed(e),
            (Phase::Polling, ScanEvent::Position(reading)) => match poll_outcome(
                self.current,
                STEP_TOLERANCE as int,
                OnError::Propagate,
                reading,
            ) {
                PollOutcome::Arrived(position) => self.recorded(position),
                PollOutcome::Retry => ScanState { phase: Phase::Pausing, ..self },
                PollOutcome::Abort(e) => self.failed(e),
            },
            (Phase::Pausing, ScanEvent::Slept) => ScanState { phase: Phase::Polling, ..self },
            _ => self,
        }
    }

    /// The state in which a scan of the range starts.
    pub open spec fn start(x_min: int, x_max: int, step: int) -> ScanState {
        ScanState {
            x_min,
            x_max,
            step,
            phase: Phase::MovingToStart,
            current: x_min,
            results: Seq::empty(),
        }
    }

    /// The state after the events of `events`, in order.
    pub open spec fn run(self, events: Seq<ScanEvent>) -> ScanState
        decreases events.len(),
    {
        if events.len() == 0 {
            self
        } else {
            self.after(events[0]).run(events.drop_first())
        }
    }
}

/// Each target of a sweep is one increment beyond the one before it.
pub proof fn lemma_next_target(x_min: int, step: int, k: int)
    ensures
        sweep_target(x_min, step, k + 1) == sweep_target(x_min, step, k) + step,
{
    assert((k + 1) * step == k * step + step) by (nonlinear_arith);
}

/// A scan starts in a state that a scan can be in.
pub proof fn lemma_start_wf(x_min: int, x_max: int, step: int)
    ensures
        ScanState::start(x_min, x_max, step).wf(),
{
}

/// Whatever the shell reports, a scan stays in a state that a scan can be in,
/// as long as its next target is a position that the driver can name: the
/// pairs recorded are those of the first targets of the sweep, in sweep
/// order, each measured within tolerance.
pub proof fn lemma_after_wf(s: ScanState, event: ScanEvent)
    requires
        s.wf(),
        i32::MIN <= s.x_min <= i32::MAX,
        i32::MIN <= s.x_max <= i32::MAX,
        representable(s.after(event).action()),
    ensures
        s.after(event).wf(),
{
    lemma_next_target(s.x_min, s.step, s.results.len() as int);
}

/// A scan with a step that is not positive, over a range that is not empty,
/// never completes: whatever the shell reports, and for however long, the
/// scan is never finished.  It ends only by failing.
pub proof fn lemma_no_progress_never_finishes(
    x_min: int,
    x_max: int,
    step: int,
    events: Seq<ScanEvent>,
)
    requires
        step <= 0,
        x_min <= x_max,
    ensures
        !(ScanState::start(x_min, x_max, step).run(events).phase is Finished),
        ScanState::start(x_min, x_max, step).run(events).action() != ActionView::Finish,
{
    lemma_stuck_run(ScanState::start(x_min, x_max, step), events);
}

/// Whether a scan is in a state from which it cannot complete: its step is
/// not positive, its range is not empty, it is not finished, and its current
/// target is not beyond the range.
pub open spec fn stuck(s: ScanState) -> bool {
    &&& s.step <= 0
    &&& s.x_min <= s.x_max
    &&& !(s.phase is Finished)
    &&& s.current <= s.x_max
}

/// A scan that cannot complete stays so, whatever the shell reports.
pub proof fn lemma_stuck_run(s: ScanState, events: Seq<ScanEvent>)
    requires
        stuck(s),
    ensures
        stuck(s.run(events)),
    decreases events.len(),
{
    if events.len() > 0 {
        lemma_stuck_run(s.after(events[0]), events.drop_first());
    }
}

/// A position query that fails at a target of the sweep ends the scan with
/// that failure, and what was recorded up to then is dropped.
pub proof fn lemma_failed_poll_ends_scan(s: ScanState, e: ArcusError)
    requires
        s.phase is Polling,
    ensures
        s.after(ScanEvent::Position(Err(e))).phase == Phase::Failed(e),
        s.after(ScanEvent::Position(Err(e))).action() == ActionView::Fail(e),
        s.after(ScanEvent::Position(Err(e))).results.len() == 0,
{
}

/// A position query that fails while the scan waits at the start is dropped:
/// the scan pauses and asks again.
pub proof fn lemma_failed_query_at_start_is_dropped(s: ScanState, e: ArcusError)
    requires
        s.phase is AwaitingStart,
    ensures
        s.after(ScanEvent::Position(Err(e))) == (ScanState { phase: Phase::PausingAtStart, ..s }),
        s.after(ScanEvent::Position(Err(e))).action() == ActionView::Sleep(START_PAUSE_US as int),
{
}

/// A scan that failed stays failed, and one that is finished stays finished.
pub proof fn lemma_over_stays_over(s: ScanState, event: ScanEvent)
    requires
        s.phase is Finished || s.phase is Failed,
    ensures
        s.after(event) == s,
{
}

/// What a stage reports that does every move at once and is found exactly
/// at the target at every query: a move done and the start measured, then
/// for each of the first `n` targets of the sweep a move done and the target
/// measured.
pub open spec fn prompt_events(x_min: int, step: int, n: nat) -> Seq<ScanEvent>
    decreases n,
{
    if n == 0 {
        seq![ScanEvent::Moved(Ok(())), ScanEvent::Position(Ok(x_min as i32))]
    } else {
        prompt_events(x_min, step, (n - 1) as nat) + seq![
            ScanEvent::Moved(Ok(())),
            ScanEvent::Position(Ok(sweep_target(x_min, step, n - 1) as i32)),
        ]
    }
}

/// The first `n` targets of a sweep, each paired with itself.
pub open spec fn prompt_results(x_min: int, step: int, n: nat) -> Seq<(i32, i32)> {
    Seq::new(
        n,
        |k: int| (sweep_target(x_min, step, k) as i32, sweep_target(x_min, step, k) as i32),
    )
}

/// Running a scan over two runs of events, one after the other, is running
/// it over the first and then over the second.
pub proof fn lemma_run_concat(s: ScanState, first: Seq<ScanEvent>, second: Seq<ScanEvent>)
    ensures
        s.run(first + second) == s.run(first).run(second),
    decreases first.len(),
{
    if first.len() == 0 {
        assert(first + second =~= second);
    } else {
        assert((first + second).drop_first() =~= first.drop_first() + second);
        lemma_run_concat(s.after(first[0]), first.drop_first(), second);
    }
}

proof fn lemma_run_two(s: ScanState, a: ScanEvent, b: ScanEvent)
    ensures
        s.run(seq![a, b]) == s.after(a).after(b),
{
    let events = seq![a, b];
    assert(events.drop_first() =~= seq![b]);
    assert(seq![b].drop_first() =~= Seq::<ScanEvent>::empty());
    assert(s.after(a).run(seq![b]) == s.after(a).after(b).run(Seq::<ScanEvent>::empty()));
}

proof fn lemma_targets_ascend(x_min: int, step: int, k: int, n: int)
    requires
        step > 0,
        0 <= k <= n,
    ensures
        x_min <= sweep_target(x_min, step, k) <= sweep_target(x_min, step, n),
{
    assert(0 <= k * step <= n * step) by (nonlinear_arith)
        requires
            step > 0,
            0 <= k <= n,
    ;
}

proof fn lemma_prompt_progress(x_min: int, x_max: int, step: int, n: nat, k: nat)
    requires
        step > 0,
        i32::MIN <= x_min <= x_max <= i32::MAX,
        k < n,
        sweep_target(x_min, step, n - 1) <= x_max,
    ensures
        ScanState::start(x_min, x_max, step).run(prompt_events(x_min, step, k)) == (ScanState {
            phase: Phase::Moving,
            current: sweep_target(x_min, step, k as int),
            results: prompt_results(x_min, step, k),
            ..ScanState::start(x_min, x_max, step)
        }),
    decreases k,
{
    let start = ScanState::start(x_min, x_max, step);
    if k == 0 {
        lemma_run_two(start, ScanEvent::Moved(Ok(())), ScanEvent::Position(Ok(x_min as i32)));
        assert(prompt_results(x_min, step, 0) =~= Seq::<(i32, i32)>::empty());
    } else {
        let j = (k - 1) as nat;
        lemma_prompt_progress(x_min, x_max, step, n, j);
        lemma_targets_ascend(x_min, step, j as int, n - 1);
        lemma_targets_ascend(x_min, step, k as int, n - 1);
        lemma_next_target(x_min, step, j as int);
        let target = sweep_target(x_min, step, j as int);
        let moved = ScanEvent::Moved(Ok(()));
        let measured = ScanEvent::Position(Ok(target as i32));
        let before = start.run(prompt_events(x_min, step, j));
        lemma_run_concat(start, prompt_events(x_min, step, j), seq![moved, measured]);
        lemma_run_two(before, moved, measured);
        assert(prompt_results(x_min, step, j).push((target as i32, target as i32))
            =~= prompt_results(x_min, step, k));
    }
}

/// With a positive step over a range that is not empty, a stage that does
/// every move at once and is found exactly at the target at every query
/// brings the scan to completion: every target of the sweep is recorded, in
/// sweep order, with itself as the measured position.  `n` is the number of
/// targets: the last of them is within the range and the next one beyond it.
pub proof fn lemma_prompt_stage_completes(x_min: int, x_max: int, step: int, n: nat)
    requires
        step > 0,
        i32::MIN <= x_min <= x_max <= i32::MAX,
        n >= 1,
        sweep_target(x_min, step, n - 1) <= x_max < sweep_target(x_min, step, n as int),
    ensures
        ScanState::start(x_min, x_max, step).run(prompt_events(x_min, step, n)).phase
            is Finished,
        ScanState::start(x_min, x_max, step).run(prompt_events(x_min, step, n)).results
            == prompt_results(x_min, step, n),
{
    let start = ScanState::start(x_min, x_max, step);
    let j = (n - 1) as nat;
    lemma_prompt_progress(x_min, x_max, step, n, j);
    lemma_targets_ascend(x_min, step, j as int, n - 1);
    lemma_next_target(x_min, step, j as int);
    let target = sweep_target(x_min, step, j as int);
    let moved = ScanEvent::Moved(Ok(()));
    let measured = ScanEvent::Position(Ok(target as i32));
    let before = start.run(prompt_events(x_min, step, j));
    lemma_run_concat(start, prompt_events(x_min, step, j), seq![moved, measured]);
    lemma_run_two(before, moved, measured);
    assert(prompt_results(x_min, step, j).push((target as i32, target as i32)) =~= prompt_results(
        x_min,
        step,
        n,
    ));
}

/// Whether the target of a move, if `action` is one, is a position that the
/// driver can name.
pub open spec fn representable(action: ActionView) -> bool {
    action matches ActionView::MoveTo(_, position) ==> i32::MIN <= position <= i32::MAX
}

/// A scan in progress.
pub struct ScanCoordinator {
    x_min: i32,
    x_max: i32,
    step: i32,
    phase: Phase,
    current_x: i32,
    results: Vec<(i32, i32)>,
}

impl View for ScanCoordinator {
    type V = ScanState;

    closed spec fn view(&self) -> ScanState {
        ScanState {
            x_min: self.x_min as int,
            x_max: self.x_max as int,
            step: self.step as int,
            phase: self.phase,
            current: self.current_x as int,
            results: self.results@,
        }
    }
}

impl ScanCoordinator {
    #[verifier::type_invariant]
    spec fn well_formed(self) -> bool {
        self@.wf()
    }

    /// Starts a scan that sweeps from `x_min` to `x_max` inclusive in
    /// increments of `step`.  The move to the start is due.  The step is
    /// taken as given: with one that is not positive, over a range that is
    /// not empty, the scan never completes.
    pub fn start_scan(x_min: i32, x_max: i32, step: i32) -> (scan: ScanCoordinator)
        ensures
            scan@ == ScanState::start(x_min as int, x_max as int, step as int),
            scan@.wf(),
    {
        ScanCoordinator {
            x_min,
            x_max,
            step,
            phase: Phase::MovingToStart,
            current_x: x_min,
            results: Vec::new(),
        }
    }

    /// The action that is due.
    pub fn action(&self) -> (action: ScanAction)
        ensures
            action@ == self@.action(),
    {
        match &self.phase {
            Phase::MovingToStart => ScanAction::MoveTo(SCAN_AXIS, self.x_min),
            Phase::AwaitingStart => ScanAction::GetPosition(SCAN_AXIS),
            Phase::PausingAtStart => ScanAction::Sleep(START_PAUSE_US),
            Phase::Moving => ScanAction::MoveTo(SCAN_AXIS, self.current_x),
            Phase::Polling => ScanAction::GetPosition(SCAN_AXIS),
            Phase::Pausing => ScanAction::Sleep(STEP_PAUSE_US),
            Phase::Finished => ScanAction::Finish,
            Phase::Failed(e) => ScanAction::Fail(e.duplicate()),
        }
    }

    /// Whether the scan can take `event`: the move that it leads to, if any,
    /// is to a position that the driver can name.
    pub fn accepts(&self, event: &ScanEvent) -> (ok: bool)
        ensures
            ok == representable(self@.after(*event).action()),
    {
        proof {
            use_type_invariant(self);
        }
        match (&self.phase, event) {
            (Phase::Polling, ScanEvent::Position(Ok(position))) => {
                !is_within(*position, self.current_x, STEP_TOLERANCE) || self.current_x as i64
                    + self.step as i64 >= i32::MIN as i64
            },
            _ => true,
        }
    }

    /// Takes what the shell reports and moves on to the next action.  The
    /// scan must be able to take the event, as `accepts` tells: a sweep with
    /// a negative step cannot go on below the least position.
    pub fn advance(self, event: ScanEvent) -> (next: ScanCoordinator)
        requires
            representable(self@.after(event).action()),
        ensures
            next@ == self@.after(event),
            next@.wf(),
    {
        proof {
            use_type_invariant(&self);
        }
        let ghost before = self@;
        let ScanCoordinator { x_min, x_max, step, phase, current_x, results } = self;
        match (phase, event) {
            (Phase::MovingToStart, ScanEvent::Moved(Ok(_))) => ScanCoordinator {
                x_min,
                x_max,
                step,
                phase: Phase::AwaitingStart,
                current_x,
                results,
            },
            (Phase::MovingToStart, ScanEvent::Moved(Err(e))) => ScanCoordinator {
                x_min,
                x_max,
                step,
                phase: Phase::Failed(e),
                current_x,
                results: Vec::new(),
            },
            (Phase::AwaitingStart, ScanEvent::Position(reading)) => {
                match poll_until(x_min, START_TOLERANCE, OnError::Ignore, reading) {
                    PollOutcome::Arrived(_) => {
                        if x_min <= x_max {
                            ScanCoordinator {
                                x_min,
                                x_max,
                                step,
                                phase: Phase::Moving,
                                current_x: x_min,
                                results,
                            }
                        } else {
                            ScanCoordinator {
                                x_min,
                                x_max,
                                step,
                                phase: Phase::Finished,
                                current_x,
                                results,
                            }
                        }
                    },
                    PollOutcome::Retry => ScanCoordinator {
                        x_min,
                        x_max,
                        step,
                        phase: Phase::PausingAtStart,
                        current_x,
                        results,
                    },
                    PollOutcome::Abort(e) => ScanCoordinator {
                        x_min,
                        x_max,
                        step,
                        phase: Phase::Failed(e),
                        current_x,
                        results: Vec::new(),
                    },
                }
            },
            (Phase::PausingAtStart, ScanEvent::Slept) => ScanCoordinator {
                x_min,
                x_max,
                step,
                phase: Phase::AwaitingStart,
                current_x,
                results,
            },
            (Phase::Moving, ScanEvent::Moved(Ok(_))) => ScanCoordinator {
                x_min,
                x_max,
                step,
                phase: Phase::Polling,
                current_x,
                results,
            },
            (Phase::Moving, ScanEvent::Moved(Err(e))) => ScanCoordinator {
                x_min,
                x_max,
                step,
                phase: Phase::Failed(e),
                current_x,
                results: Vec::new(),
            },
            (Phase::Polling, ScanEvent::Position(reading)) => {
                match poll_until(current_x, STEP_TOLERANCE, OnError::Propagate, reading) {
                    PollOutcome::Arrived(position) => {
                        let mut results = results;
                        results.push((current_x, position));
                        proof {
                            lemma_next_target(x_min as int, step as int, before.results.len() as int);
                            assert(before.recorded(position).recorded_in_order());
                        }
                        let next_x: i64 = current_x as i64 + step as i64;
                        if next_x <= x_max as i64 {
                            ScanCoordinator {
                                x_min,
                                x_max,
                                step,
                                phase: Phase::Moving,
                                current_x: next_x as i32,
                                results,
                            }
                        } else {
                            ScanCoordinator {
                                x_min,
                                x_max,
                                step,
                                phase: Phase::Finished,
                                current_x,
                                results,
                            }
                        }
                    },
                    PollOutcome::Retry => ScanCoordinator {
                        x_min,
                        x_max,
                        step,
                        phase: Phase::Pausing,
                        current_x,
                        results,
                    },
                    PollOutcome::Abort(e) => ScanCoordinator {
                        x_min,
                        x_max,
                        step,
                        phase: Phase::Failed(e),
                        current_x,
                        results: Vec::new(),
                    },
                }
            },
            (Phase::Pausing, ScanEvent::Slept) => ScanCoordinator {
                x_min,
                x_max,
                step,
                phase: Phase::Polling,
                current_x,
                results,
            },
            (phase, _) => ScanCoordinator { x_min, x_max, step, phase, current_x, results },
        }
    }

    /// Takes what the shell reports and moves on, where the scan can take
    /// it; else hands the scan back as it was.
    pub fn try_advance(self, event: ScanEvent) -> (r: Result<ScanCoordinator, ScanCoordinator>)
        ensures
            self@.wf(),
            match r {
                Ok(next) => {
                    &&& representable(self@.after(event).action())
                    &&& next@ == self@.after(event)
                    &&& next@.wf()
                },
                Err(same) => {
                    &&& !representable(self@.after(event).action())
                    &&& same@ == self@
                },
            },
    {
        proof {
            use_type_invariant(&self);
        }
        if self.accepts(&event) {
            Ok(self.advance(event))
        } else {
            Err(self)
        }
    }

    /// The failure for which the scan was given up, if it was.
    pub fn failure(&self) -> (failure: Option<ArcusError>)
        ensures
            self@.wf(),
            match self@.phase {
                Phase::Failed(e) => failure == Some(e),
                _ => failure is None,
            },
    {
        proof {
            use_type_invariant(self);
        }
        match &self.phase {
            Phase::Failed(e) => Some(e.duplicate()),
            _ => None,
        }
    }

    /// The pairs of target and measured position, one for each target of the
    /// sweep in sweep order, once the scan is complete; nothing before that
    /// and nothing of a scan that failed.
    pub fn into_results(self) -> (results: Option<Vec<(i32, i32)>>)
        ensures
            self@.wf(),
            match self@.phase {
                Phase::Finished => results matches Some(pairs) && pairs@ == self@.results,
                _ => results is None,
            },
    {
        proof {
            use_type_invariant(&self);
        }
        match self.phase {
            Phase::Finished => Some(self.results),
            _ => None,
        }
    }
}

} // verus!
