//! The session monitor: a state machine that turns once-a-second process
//! observations into accumulated foreground time and lifecycle events.
//!
//! The caller owns the clock, the sleeping and the process queries. It feeds
//! each observation to the state, does what the returned `NextStep` says, and
//! delivers the events handed back.

use vstd::prelude::*;
use crate::selector::{ProcessCandidate, best_pid, select_best_pid};

verus! {

/// Consecutive failed liveness checks after which the watched process is
/// taken to be gone, by default.
pub const FAILURE_THRESHOLD: u32 = 3;

/// Active seconds between two progress reports, by default.
pub const PROGRESS_INTERVAL_SECONDS: u64 = 30;

/// The monitor's tuning: how many consecutive failed liveness checks end the
/// watch of a process, and how many active seconds lie between progress
/// reports.
#[derive(Clone, Copy, Debug, PartialEq, Eq, Structural)]
pub struct MonitorPolicy {
    pub failure_threshold: u32,
    pub progress_interval_seconds: u64,
}

/// A policy the monitor can run with: a single failed check never ends a
/// watch, and progress is reported at a positive interval.
pub open spec fn valid_policy(p: MonitorPolicy) -> bool {
    p.failure_threshold > 1 && p.progress_interval_seconds > 0
}

impl Default for MonitorPolicy {
    fn default() -> (r: Self)
        ensures
            r.failure_threshold == FAILURE_THRESHOLD,
            r.progress_interval_seconds == PROGRESS_INTERVAL_SECONDS,
            valid_policy(r),
    {
        MonitorPolicy {
            failure_threshold: FAILURE_THRESHOLD,
            progress_interval_seconds: PROGRESS_INTERVAL_SECONDS,
        }
    }
}

impl MonitorPolicy {
    /// Whether the monitor can run with this policy.
    pub fn is_valid(&self) -> (r: bool)
        ensures
            r == valid_policy(*self),
    {
        self.failure_threshold > 1 && self.progress_interval_seconds > 0
    }
}

/// What a monitoring task is started with.
#[derive(Clone, Debug)]
pub struct MonitorRequest {
    pub game_id: u32,
    pub initial_pid: u32,
    pub executable_path: String,
}

/// An outbound lifecycle event.
#[derive(Clone, Copy, Debug, PartialEq, Eq, Structural)]
pub enum SessionEvent {
    Started { game_id: u32, process_id: u32, start_time: u64 },
    Switched { game_id: u32, new_process_id: u32 },
    Progress {
        game_id: u32,
        total_minutes: u64,
        total_seconds: u64,
        start_time: u64,
        current_time: u64,
        process_id: u32,
    },
    Ended {
        game_id: u32,
        start_time: u64,
        end_time: u64,
        total_minutes: u64,
        total_seconds: u64,
        process_id: u32,
    },
}

/// The totals of a finished session.
#[derive(Clone, Copy, Debug, PartialEq, Eq, Structural)]
pub struct SessionResult {
    pub game_id: u32,
    pub start_time: u64,
    pub end_time: u64,
    pub total_minutes: u64,
    pub total_seconds: u64,
    pub final_pid: u32,
}

/// Where the monitor stands.
#[derive(Clone, Copy, Debug, PartialEq, Eq, Structural)]
pub enum Phase {
    /// Polling the watched process once a second.
    Running,
    /// The watched process is gone; a fresh candidate snapshot is awaited.
    Switching,
    /// A successor was chosen; its liveness is awaited.
    Confirming(u32),
    /// No successor: the session is over.
    Ended,
}

/// What the caller does next.
#[derive(Clone, Copy, Debug, PartialEq, Eq, Structural)]
pub enum NextStep {
    /// Wait one second, then call `poll`.
    Wait,
    /// Deliver this progress event (delivery is required), wait one second,
    /// then call `poll`.
    Progress(SessionEvent),
    /// Take a fresh candidate snapshot and call `reselect`.
    Reselect,
    /// Check whether this pid is alive and call `confirm`.
    Confirm(u32),
    /// Deliver this event (best effort) and call `poll` at once.
    Switched(SessionEvent),
    /// Call `finish`.
    Finish,
}

/// The abstract state of a session, with the events emitted so far and the
/// number of times it entered the switching phase.
pub struct SessionView {
    pub policy: MonitorPolicy,
    pub game_id: u32,
    pub watched_pid: u32,
    pub original_pid: u32,
    pub start_time: u64,
    pub accumulated_active_seconds: u64,
    pub consecutive_liveness_failures: u32,
    pub has_switched_process: bool,
    pub phase: Phase,
    pub history: Seq<SessionEvent>,
    pub switchings: nat,
}

/// Seconds rounded half up to whole minutes.
pub open spec fn rounded_minutes_spec(seconds: u64) -> u64 {
    if seconds % 60 < 30 {
        (seconds / 60) as u64
    } else {
        (seconds / 60 + 1) as u64
    }
}

/// How many switched events `events` holds.
pub open spec fn switched_count(events: Seq<SessionEvent>) -> nat
    decreases events.len(),
{
    if events.len() == 0 {
        0
    } else {
        switched_count(events.drop_last()) + if events.last() is Switched {
            1nat
        } else {
            0nat
        }
    }
}

/// A whole session's events: one started event first, one ended event last,
/// and only progress and switched events between them.
pub open spec fn is_session_trace(events: Seq<SessionEvent>) -> bool {
    &&& events.len() >= 2
    &&& events[0] is Started
    &&& events.last() is Ended
    &&& forall|i: int| 1 <= i < events.len() - 1 ==> (#[trigger] events[i] is Progress) || events[i] is Switched
}

/// The events of a session that has not ended yet.
pub open spec fn is_open_trace(events: Seq<SessionEvent>) -> bool {
    &&& events.len() >= 1
    &&& events[0] is Started
    &&& forall|i: int| 1 <= i < events.len() ==> (#[trigger] events[i] is Progress) || events[i] is Switched
}

/// What holds of every state of a session.
pub open spec fn session_wf(v: SessionView) -> bool {
    &&& valid_policy(v.policy)
    &&& is_open_trace(v.history)
    &&& switched_count(v.history) <= v.switchings
    &&& v.consecutive_liveness_failures <= v.policy.failure_threshold
    &&& v.phase is Running ==> v.consecutive_liveness_failures < v.policy.failure_threshold
    &&& (v.phase is Switching || v.phase is Confirming) ==> switched_count(v.history) < v.switchings
}

pub open spec fn started_event(game_id: u32, process_id: u32, start_time: u64) -> SessionEvent {
    SessionEvent::Started { game_id, process_id, start_time }
}

/// The state right after the started event.
pub open spec fn start_spec(
    policy: MonitorPolicy,
    game_id: u32,
    process_id: u32,
    start_time: u64,
) -> SessionView {
    SessionView {
        policy,
        game_id,
        watched_pid: process_id,
        original_pid: process_id,
        start_time,
        accumulated_active_seconds: 0,
        consecutive_liveness_failures: 0,
        has_switched_process: false,
        phase: Phase::Running,
        history: seq![started_event(game_id, process_id, start_time)],
        switchings: 0,
    }
}

/// One poll of the watched process at time `now`.
pub open spec fn poll_spec(v: SessionView, alive: bool, foreground: bool, now: u64) -> (
    SessionView,
    NextStep,
) {
    if alive {
        let acc = if foreground {
            (v.accumulated_active_seconds + 1) as u64
        } else {
            v.accumulated_active_seconds
        };
        let w = SessionView { accumulated_active_seconds: acc, consecutive_liveness_failures: 0, ..v };
        if foreground && acc % v.policy.progress_interval_seconds == 0 {
            let e = SessionEvent::Progress {
                game_id: v.game_id,
                total_minutes: (acc / 60) as u64,
                total_seconds: acc,
                start_time: v.start_time,
                current_time: now,
                process_id: v.watched_pid,
            };
            (SessionView { history: v.history.push(e), ..w }, NextStep::Progress(e))
        } else {
            (w, NextStep::Wait)
        }
    } else {
        let f = (v.consecutive_liveness_failures + 1) as u32;
        if f >= v.policy.failure_threshold {
            (
                SessionView {
                    consecutive_liveness_failures: f,
                    phase: Phase::Switching,
                    switchings: v.switchings + 1,
                    ..v
                },
                NextStep::Reselect,
            )
        } else {
            (SessionView { consecutive_liveness_failures: f, ..v }, NextStep::Wait)
        }
    }
}

/// Whether `pid`, chosen from a non-empty snapshot, may be adopted: it is
/// another process, or no switch has happened yet.
pub open spec fn adoptable(v: SessionView, pid: u32) -> bool {
    pid != v.watched_pid || !v.has_switched_process
}

/// Re-running the selection on a fresh snapshot after the watched process
/// was lost.
pub open spec fn reselect_spec(
    v: SessionView,
    watched_is_foreground: bool,
    candidates: Seq<ProcessCandidate>,
) -> (SessionView, NextStep) {
    let p = best_pid(v.watched_pid, watched_is_foreground, candidates);
    if candidates.len() > 0 && adoptable(v, p) {
        (SessionView { phase: Phase::Confirming(p), ..v }, NextStep::Confirm(p))
    } else {
        (SessionView { phase: Phase::Ended, ..v }, NextStep::Finish)
    }
}

/// Adopting the chosen successor `pid` if it is alive, else ending.
pub open spec fn confirm_spec(v: SessionView, pid: u32, alive: bool) -> (SessionView, NextStep) {
    if alive {
        let e = SessionEvent::Switched { game_id: v.game_id, new_process_id: pid };
        (
            SessionView {
                watched_pid: pid,
                has_switched_process: true,
                consecutive_liveness_failures: 0,
                phase: Phase::Running,
                history: v.history.push(e),
                ..v
            },
            NextStep::Switched(e),
        )
    } else {
        (SessionView { phase: Phase::Ended, ..v }, NextStep::Finish)
    }
}

/// The totals of a session ended at `end_time`.
pub open spec fn result_spec(v: SessionView, end_time: u64) -> SessionResult {
    SessionResult {
        game_id: v.game_id,
        start_time: v.start_time,
        end_time,
        total_minutes: rounded_minutes_spec(v.accumulated_active_seconds),
        total_seconds: v.accumulated_active_seconds,
        final_pid: v.watched_pid,
    }
}

/// The ended event of a session ended at `end_time`.
pub open spec fn ended_event(v: SessionView, end_time: u64) -> SessionEvent {
    SessionEvent::Ended {
        game_id: v.game_id,
        start_time: v.start_time,
        end_time,
        total_minutes: rounded_minutes_spec(v.accumulated_active_seconds),
        total_seconds: v.accumulated_active_seconds,
        process_id: v.watched_pid,
    }
}

/// Seconds rounded half up to whole minutes: `s / 60`, plus one when
/// `s % 60` is 30 or more.
pub fn rounded_minutes(seconds: u64) -> (r: u64)
    ensures
        r == rounded_minutes_spec(seconds),
{
    let minutes = seconds / 60;
    if seconds % 60 >= 30 {
        minutes + 1
    } else {
        minutes
    }
}


/// The state of one monitoring session. It is owned by the task that runs the
/// session and changes only through its methods.
pub struct SessionState {
    policy: MonitorPolicy,
    game_id: u32,
    watched_pid: u32,
    original_pid: u32,
    start_time: u64,
    accumulated_active_seconds: u64,
    consecutive_liveness_failures: u32,
    has_switched_process: bool,
    phase: Phase,
    history: Ghost<Seq<SessionEvent>>,
    switchings: Ghost<nat>,
}

impl View for SessionState {
    type V = SessionView;

    closed spec fn view(&self) -> SessionView {
        SessionView {
            policy: self.policy,
            game_id: self.game_id,
            watched_pid: self.watched_pid,
            original_pid: self.original_pid,
            start_time: self.start_time,
            accumulated_active_seconds: self.accumulated_active_seconds,
            consecutive_liveness_failures: self.consecutive_liveness_failures,
            has_switched_process: self.has_switched_process,
            phase: self.phase,
            history: self.history@,
            switchings: self.switchings@,
        }
    }
}

proof fn lemma_push_keeps_open_trace(events: Seq<SessionEvent>, e: SessionEvent)
    requires
        is_open_trace(events),
        e is Progress || e is Switched,
    ensures
        is_open_trace(events.push(e)),
        switched_count(events.push(e)) == switched_count(events) + if e is Switched {
            1nat
        } else {
            0nat
        },
{
    let t = events.push(e);
    assert(t.drop_last() =~= events);
    assert forall|i: int| 1 <= i < t.len() implies (#[trigger] t[i] is Progress) || t[i] is Switched by {
        if i < events.len() {
            assert(t[i] == events[i]);
        }
    }
}

impl SessionState {
    /// Well-formed: what every state of a session satisfies.
    pub open spec fn wf(&self) -> bool {
        session_wf(self@)
    }

    /// Starts a session at `start_time` for `request`, run with `policy`:
    /// picks the pid to watch
    /// from the snapshot taken after the launch settled (whether the initial
    /// pid owns the foreground window, and the processes under the game's
    /// directory), and returns the state with the started event.
    pub fn start(
        request: &MonitorRequest,
        policy: MonitorPolicy,
        initial_is_foreground: bool,
        candidates: &Vec<ProcessCandidate>,
        start_time: u64,
    ) -> (r: (SessionState, SessionEvent))
        requires
            valid_policy(policy),
        ensures
            r.0.wf(),
            r.0@ == start_spec(
                policy,
                request.game_id,
                best_pid(request.initial_pid, initial_is_foreground, candidates@),
                start_time,
            ),
            r.1 == started_event(request.game_id, r.0@.watched_pid, start_time),
    {
        let pid = select_best_pid(request.initial_pid, initial_is_foreground, candidates);
        let e = SessionEvent::Started { game_id: request.game_id, process_id: pid, start_time };
        let ghost first = seq![e];
        let st = SessionState {
            policy,
            game_id: request.game_id,
            watched_pid: pid,
            original_pid: pid,
            start_time,
            accumulated_active_seconds: 0,
            consecutive_liveness_failures: 0,
            has_switched_process: false,
            phase: Phase::Running,
            history: Ghost(first),
            switchings: Ghost(0),
        };
        proof {
            assert(switched_count(first) == 0) by {
                assert(first.drop_last() =~= Seq::<SessionEvent>::empty());
                assert(first.last() == e);
                assert(switched_count(Seq::<SessionEvent>::empty()) == 0);
            }
        }
        (st, e)
    }

    /// One poll, a second after the last: whether the watched process is
    /// alive and whether it owns the foreground window, at time `now`.
    pub fn poll(&mut self, alive: bool, foreground: bool, now: u64) -> (r: NextStep)
        requires
            old(self).wf(),
            old(self)@.phase is Running,
            old(self)@.accumulated_active_seconds < u64::MAX,
        ensures
            final(self).wf(),
            (final(self)@, r) == poll_spec(old(self)@, alive, foreground, now),
    {
        let ghost v = self@;
        if alive {
            self.consecutive_liveness_failures = 0;
            if foreground {
                self.accumulated_active_seconds = self.accumulated_active_seconds + 1;
                let acc = self.accumulated_active_seconds;
                if acc % self.policy.progress_interval_seconds == 0 {
                    let e = SessionEvent::Progress {
                        game_id: self.game_id,
                        total_minutes: acc / 60,
                        total_seconds: acc,
                        start_time: self.start_time,
                        current_time: now,
                        process_id: self.watched_pid,
                    };
                    proof {
                        lemma_push_keeps_open_trace(self.history@, e);
                    }
                    self.history = Ghost(self.history@.push(e));
                    return NextStep::Progress(e);
                }
            }
            NextStep::Wait
        } else {
            self.consecutive_liveness_failures = self.consecutive_liveness_failures + 1;
            if self.consecutive_liveness_failures >= self.policy.failure_threshold {
                self.phase = Phase::Switching;
                self.switchings = Ghost(self.switchings@ + 1);
                NextStep::Reselect
            } else {
                NextStep::Wait
            }
        }
    }

    /// After the watched process was lost: a fresh snapshot, whether the
    /// watched pid owns the foreground window and the processes under the
    /// game's directory. Asks to confirm an adoptable successor, or finishes.
    pub fn reselect(&mut self, watched_is_foreground: bool, candidates: &Vec<ProcessCandidate>) -> (r:
        NextStep)
        requires
            old(self).wf(),
            old(self)@.phase is Switching,
        ensures
            final(self).wf(),
            (final(self)@, r) == reselect_spec(old(self)@, watched_is_foreground, candidates@),
    {
        if candidates.len() > 0 {
            let pid = select_best_pid(self.watched_pid, watched_is_foreground, candidates);
            if pid != self.watched_pid || !self.has_switched_process {
                self.phase = Phase::Confirming(pid);
                return NextStep::Confirm(pid);
            }
        }
        self.phase = Phase::Ended;
        NextStep::Finish
    }

    /// Whether the successor chosen by `reselect` is alive: it is adopted if
    /// so, and the session ends if not.
    pub fn confirm(&mut self, alive: bool) -> (r: NextStep)
        requires
            old(self).wf(),
            old(self)@.phase is Confirming,
        ensures
            final(self).wf(),
            (final(self)@, r) == confirm_spec(old(self)@, old(self)@.phase->Confirming_0, alive),
    {
        let pid = match self.phase {
            Phase::Confirming(p) => p,
            _ => self.watched_pid,
        };
        if alive {
            let e = SessionEvent::Switched { game_id: self.game_id, new_process_id: pid };
            proof {
                lemma_push_keeps_open_trace(self.history@, e);
            }
            self.watched_pid = pid;
            self.has_switched_process = true;
            self.consecutive_liveness_failures = 0;
            self.phase = Phase::Running;
            self.history = Ghost(self.history@.push(e));
            NextStep::Switched(e)
        } else {
            self.phase = Phase::Ended;
            NextStep::Finish
        }
    }

    /// Ends the session at `end_time`: its totals, with the active time
    /// rounded to whole minutes, and the ended event.
    pub fn finish(self, end_time: u64) -> (r: (SessionResult, SessionEvent))
        requires
            self.wf(),
            self@.phase is Ended,
        ensures
            r.0 == result_spec(self@, end_time),
            r.1 == ended_event(self@, end_time),
            is_session_trace(self@.history.push(r.1)),
            switched_count(self@.history.push(r.1)) <= self@.switchings,
    {
        let minutes = rounded_minutes(self.accumulated_active_seconds);
        let e = SessionEvent::Ended {
            game_id: self.game_id,
            start_time: self.start_time,
            end_time,
            total_minutes: minutes,
            total_seconds: self.accumulated_active_seconds,
            process_id: self.watched_pid,
        };
        let res = SessionResult {
            game_id: self.game_id,
            start_time: self.start_time,
            end_time,
            total_minutes: minutes,
            total_seconds: self.accumulated_active_seconds,
            final_pid: self.watched_pid,
        };
        proof {
            let t = self.history@.push(e);
            assert(t.drop_last() =~= self.history@);
            assert forall|i: int| 1 <= i < t.len() - 1 implies (#[trigger] t[i] is Progress)
                || t[i] is Switched by {
                assert(t[i] == self.history@[i]);
            }
        }
        (res, e)
    }

    pub fn policy(&self) -> (r: MonitorPolicy)
        ensures
            r == self@.policy,
    {
        self.policy
    }

    pub fn game_id(&self) -> (r: u32)
        ensures
            r == self@.game_id,
    {
        self.game_id
    }

    pub fn watched_pid(&self) -> (r: u32)
        ensures
            r == self@.watched_pid,
    {
        self.watched_pid
    }

    pub fn original_pid(&self) -> (r: u32)
        ensures
            r == self@.original_pid,
    {
        self.original_pid
    }

    pub fn start_time(&self) -> (r: u64)
        ensures
            r == self@.start_time,
    {
        self.start_time
    }

    pub fn accumulated_active_seconds(&self) -> (r: u64)
        ensures
            r == self@.accumulated_active_seconds,
    {
        self.accumulated_active_seconds
    }

    pub fn consecutive_liveness_failures(&self) -> (r: u32)
        ensures
            r == self@.consecutive_liveness_failures,
    {
        self.consecutive_liveness_failures
    }

    pub fn has_switched_process(&self) -> (r: bool)
        ensures
            r == self@.has_switched_process,
    {
        self.has_switched_process
    }

    pub fn phase(&self) -> (r: Phase)
        ensures
            r == self@.phase,
    {
        self.phase
    }
}

/// How many observations saw the process alive and in the foreground.
pub open spec fn focused_ticks(observations: Seq<(bool, bool)>) -> nat
    decreases observations.len(),
{
    if observations.len() == 0 {
        0
    } else {
        focused_ticks(observations.drop_last()) + if observations.last().0
            && observations.last().1 {
            1nat
        } else {
            0nat
        }
    }
}

/// The state after polling with each `(alive, foreground)` observation in turn.
pub open spec fn poll_run(v: SessionView, observations: Seq<(bool, bool)>, now: u64) -> SessionView
    decreases observations.len(),
{
    if observations.len() == 0 {
        v
    } else {
        let w = poll_run(v, observations.drop_last(), now);
        poll_spec(w, observations.last().0, observations.last().1, now).0
    }
}

proof fn lemma_focused_ticks_bound(observations: Seq<(bool, bool)>)
    ensures
        focused_ticks(observations) <= observations.len(),
    decreases observations.len(),
{
    if observations.len() > 0 {
        lemma_focused_ticks_bound(observations.drop_last());
    }
}

/// Active time grows by one second on each poll that finds the watched
/// process alive and in the foreground, and on no other: over any sequence of
/// liveness and focus results it grows by exactly the number of such polls.
/// Reselection, confirmation and finishing leave it as it is.
pub proof fn lemma_active_time_counts_focused_polls(
    v: SessionView,
    observations: Seq<(bool, bool)>,
    now: u64,
    watched_is_foreground: bool,
    candidates: Seq<ProcessCandidate>,
    pid: u32,
    alive: bool,
    end_time: u64,
)
    requires
        v.accumulated_active_seconds + observations.len() <= u64::MAX,
    ensures
        poll_run(v, observations, now).accumulated_active_seconds == v.accumulated_active_seconds
            + focused_ticks(observations),
        reselect_spec(v, watched_is_foreground, candidates).0.accumulated_active_seconds
            == v.accumulated_active_seconds,
        confirm_spec(v, pid, alive).0.accumulated_active_seconds == v.accumulated_active_seconds,
        result_spec(v, end_time).total_seconds == v.accumulated_active_seconds,
    decreases observations.len(),
{
    if observations.len() > 0 {
        lemma_focused_ticks_bound(observations.drop_last());
        lemma_active_time_counts_focused_polls(
            v,
            observations.drop_last(),
            now,
            watched_is_foreground,
            candidates,
            pid,
            alive,
            end_time,
        );
    }
}

/// In a whole session the started event comes once, first, and the ended
/// event once, last; every event between them is a progress or a switched
/// event.
pub proof fn lemma_session_event_order(events: Seq<SessionEvent>)
    requires
        is_session_trace(events),
    ensures
        forall|i: int| 0 <= i < events.len() ==> (#[trigger] events[i] is Started <==> i == 0),
        forall|i: int|
            0 <= i < events.len() ==> (#[trigger] events[i] is Ended <==> i == events.len() - 1),
        forall|i: int|
            0 < i < events.len() - 1 ==> (#[trigger] events[i] is Progress) || events[i] is Switched,
{
}

/// The state and step after `k` consecutive polls that found the watched
/// process gone.
pub open spec fn failed_polls(v: SessionView, k: nat, now: u64) -> (SessionView, NextStep)
    decreases k,
{
    if k == 0 {
        (v, NextStep::Wait)
    } else {
        poll_spec(failed_polls(v, (k - 1) as nat, now).0, false, false, now)
    }
}

proof fn lemma_failed_polls(v: SessionView, k: nat, now: u64)
    requires
        session_wf(v),
        v.phase is Running,
        v.consecutive_liveness_failures == 0,
        1 <= k <= v.policy.failure_threshold,
    ensures
        failed_polls(v, k, now).0.consecutive_liveness_failures == k,
        failed_polls(v, k, now).0.accumulated_active_seconds == v.accumulated_active_seconds,
        failed_polls(v, k, now).0.watched_pid == v.watched_pid,
        failed_polls(v, k, now).0.has_switched_process == v.has_switched_process,
        failed_polls(v, k, now).0.policy == v.policy,
        k < v.policy.failure_threshold ==> failed_polls(v, k, now).1 is Wait && failed_polls(
            v,
            k,
            now,
        ).0.phase is Running,
        k == v.policy.failure_threshold ==> failed_polls(v, k, now).1 is Reselect && failed_polls(
            v,
            k,
            now,
        ).0.phase is Switching,
    decreases k,
{
    if k > 1 {
        lemma_failed_polls(v, (k - 1) as nat, now);
    } else {
        assert(failed_polls(v, 0, now).0 == v);
    }
}

/// Fewer consecutive failed liveness checks than the policy's threshold (with
/// the default policy: one or two) leave the session running; the check that
/// reaches the threshold (the third) asks for a new selection, and when that
/// finds no adoptable successor, or the successor is not alive, the session
/// ends.
pub proof fn lemma_failure_absorption(
    v: SessionView,
    now: u64,
    watched_is_foreground: bool,
    candidates: Seq<ProcessCandidate>,
)
    requires
        session_wf(v),
        v.phase is Running,
        v.consecutive_liveness_failures == 0,
    ensures
        forall|k: nat|
            1 <= k < v.policy.failure_threshold ==> (#[trigger] failed_polls(v, k, now)).1 is Wait
                && failed_polls(v, k, now).0.phase is Running,
        ({
            let (w, s) = failed_polls(v, v.policy.failure_threshold as nat, now);
            let p = best_pid(w.watched_pid, watched_is_foreground, candidates);
            &&& s is Reselect && w.phase is Switching
            &&& (candidates.len() == 0 || !adoptable(w, p)) ==> reselect_spec(
                w,
                watched_is_foreground,
                candidates,
            ).1 is Finish
            &&& confirm_spec(w, p, false).1 is Finish
        }),
{
    assert forall|k: nat| 1 <= k < v.policy.failure_threshold implies (#[trigger] failed_polls(
        v,
        k,
        now,
    )).1 is Wait && failed_polls(v, k, now).0.phase is Running by {
        lemma_failed_polls(v, k, now);
    }
    lemma_failed_polls(v, v.policy.failure_threshold as nat, now);
}

/// A named value in an event's payload.
#[derive(Clone, Copy, Debug, PartialEq, Eq)]
pub struct EventField {
    pub key: &'static str,
    pub value: u64,
}

/// The name under which subscribers receive an event.
pub open spec fn event_name(e: SessionEvent) -> Seq<char> {
    match e {
        SessionEvent::Started { .. } => "game-session-started"@,
        SessionEvent::Switched { .. } => "game-process-switched"@,
        SessionEvent::Progress { .. } => "game-time-update"@,
        SessionEvent::Ended { .. } => "game-session-ended"@,
    }
}

/// An event's payload: its fields, by name, in order.
pub open spec fn event_payload(e: SessionEvent) -> Seq<(Seq<char>, u64)> {
    match e {
        SessionEvent::Started { game_id, process_id, start_time } => seq![
            ("gameId"@, game_id as u64),
            ("processId"@, process_id as u64),
            ("startTime"@, start_time),
        ],
        SessionEvent::Switched { game_id, new_process_id } => seq![
            ("gameId"@, game_id as u64),
            ("newProcessId"@, new_process_id as u64),
        ],
        SessionEvent::Progress {
            game_id,
            total_minutes,
            total_seconds,
            start_time,
            current_time,
            process_id,
        } => seq![
            ("gameId"@, game_id as u64),
            ("totalMinutes"@, total_minutes),
            ("totalSeconds"@, total_seconds),
            ("startTime"@, start_time),
            ("currentTime"@, current_time),
            ("processId"@, process_id as u64),
        ],
        SessionEvent::Ended {
            game_id,
            start_time,
            end_time,
            total_minutes,
            total_seconds,
            process_id,
        } => seq![
            ("gameId"@, game_id as u64),
            ("startTime"@, start_time),
            ("endTime"@, end_time),
            ("totalMinutes"@, total_minutes),
            ("totalSeconds"@, total_seconds),
            ("processId"@, process_id as u64),
        ],
    }
}

fn field(key: &'static str, value: u64) -> (r: EventField)
    ensures
        r.key@ == key@,
        r.value == value,
{
    EventField { key, value }
}

impl SessionEvent {
    /// The name under which subscribers receive this event.
    pub fn name(&self) -> (r: &'static str)
        ensures
            r@ == event_name(*self),
    {
        match self {
            SessionEvent::Started { .. } => "game-session-started",
            SessionEvent::Switched { .. } => "game-process-switched",
            SessionEvent::Progress { .. } => "game-time-update",
            SessionEvent::Ended { .. } => "game-session-ended",
        }
    }

    /// Whether the session must stop when this event cannot be delivered:
    /// true of started and progress events.
    pub fn delivery_required(&self) -> (r: bool)
        ensures
            r == (*self is Started || *self is Progress),
    {
        match self {
            SessionEvent::Started { .. } => true,
            SessionEvent::Progress { .. } => true,
            _ => false,
        }
    }

    /// The payload fields, by name, in order.
    pub fn payload(&self) -> (r: Vec<EventField>)
        ensures
            r@.len() == event_payload(*self).len(),
            forall|i: int|
                0 <= i < r@.len() ==> (#[trigger] r@[i].key@, r@[i].value) == event_payload(
                    *self,
                )[i],
    {
        let mut v: Vec<EventField> = Vec::new();
        match *self {
            SessionEvent::Started { game_id, process_id, start_time } => {
                v.push(field("gameId", game_id as u64));
                v.push(field("processId", process_id as u64));
                v.push(field("startTime", start_time));
            },
            SessionEvent::Switched { game_id, new_process_id } => {
                v.push(field("gameId", game_id as u64));
                v.push(field("newProcessId", new_process_id as u64));
            },
            SessionEvent::Progress {
                game_id,
                total_minutes,
                total_seconds,
                start_time,
                current_time,
                process_id,
            } => {
                v.push(field("gameId", game_id as u64));
                v.push(field("totalMinutes", total_minutes));
                v.push(field("totalSeconds", total_seconds));
                v.push(field("startTime", start_time));
                v.push(field("currentTime", current_time));
                v.push(field("processId", process_id as u64));
            },
            SessionEvent::Ended {
                game_id,
                start_time,
                end_time,
                total_minutes,
                total_seconds,
                process_id,
            } => {
                v.push(field("gameId", game_id as u64));
                v.push(field("startTime", start_time));
                v.push(field("endTime", end_time));
                v.push(field("totalMinutes", total_minutes));
                v.push(field("totalSeconds", total_seconds));
                v.push(field("processId", process_id as u64));
            },
        }
        v
    }
}

} // verus!
