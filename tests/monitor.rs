use reina_manager::monitor::{
    rounded_minutes, MonitorPolicy, MonitorRequest, NextStep, Phase, SessionEvent, SessionState,
    FAILURE_THRESHOLD, PROGRESS_INTERVAL_SECONDS,
};
use reina_manager::selector::ProcessCandidate;

fn request(pid: u32) -> MonitorRequest {
    MonitorRequest { game_id: 7, initial_pid: pid, executable_path: "/games/a/a.exe".to_string() }
}

fn started(pid: u32) -> SessionState {
    let (st, ev) = SessionState::start(&request(pid), MonitorPolicy::default(), true, &Vec::new(), 1000);
    assert_eq!(ev, SessionEvent::Started { game_id: 7, process_id: pid, start_time: 1000 });
    st
}

#[test]
fn rounding_half_up_to_minutes() {
    assert_eq!(rounded_minutes(89), 1);
    assert_eq!(rounded_minutes(90), 2);
    assert_eq!(rounded_minutes(29), 0);
    assert_eq!(rounded_minutes(30), 1);
    assert_eq!(rounded_minutes(0), 0);
    assert_eq!(rounded_minutes(3599), 60);
    assert_eq!(rounded_minutes(u64::MAX), u64::MAX / 60);
    assert_eq!(rounded_minutes(u64::MAX - 15), u64::MAX / 60);
    assert_eq!(rounded_minutes(u64::MAX - 45), u64::MAX / 60);
    assert_eq!(rounded_minutes(u64::MAX - 46), u64::MAX / 60 - 1);
}

#[test]
fn start_picks_best_candidate() {
    let cands = vec![
        ProcessCandidate { pid: 100, is_foreground: false, has_visible_window: false },
        ProcessCandidate { pid: 205, is_foreground: false, has_visible_window: true },
    ];
    let (st, ev) = SessionState::start(&request(100), MonitorPolicy::default(), false, &cands, 5);
    assert_eq!(st.watched_pid(), 205);
    assert_eq!(st.original_pid(), 205);
    assert_eq!(st.start_time(), 5);
    assert_eq!(st.phase(), Phase::Running);
    assert!(!st.has_switched_process());
    assert_eq!(ev, SessionEvent::Started { game_id: 7, process_id: 205, start_time: 5 });
}

#[test]
fn time_counts_only_alive_and_foreground_polls() {
    let mut st = started(100);
    assert_eq!(st.poll(true, true, 1001), NextStep::Wait);
    assert_eq!(st.poll(true, false, 1002), NextStep::Wait);
    assert_eq!(st.poll(false, true, 1003), NextStep::Wait);
    assert_eq!(st.poll(true, true, 1004), NextStep::Wait);
    assert_eq!(st.accumulated_active_seconds(), 2);
    assert_eq!(st.consecutive_liveness_failures(), 0);
}

#[test]
fn progress_every_thirty_active_seconds() {
    let mut st = started(100);
    for t in 1..30u64 {
        assert_eq!(st.poll(true, true, 1000 + t), NextStep::Wait);
    }
    let step = st.poll(true, true, 1030);
    assert_eq!(
        step,
        NextStep::Progress(SessionEvent::Progress {
            game_id: 7,
            total_minutes: 0,
            total_seconds: 30,
            start_time: 1000,
            current_time: 1030,
            process_id: 100,
        })
    );
    for t in 31..60u64 {
        assert_eq!(st.poll(true, true, 1000 + t), NextStep::Wait);
    }
    match st.poll(true, true, 1060) {
        NextStep::Progress(SessionEvent::Progress { total_minutes, total_seconds, .. }) => {
            assert_eq!(total_minutes, 1);
            assert_eq!(total_seconds, 60);
        }
        other => panic!("unexpected step {:?}", other),
    }
}

#[test]
fn one_or_two_failures_are_absorbed() {
    let mut st = started(100);
    assert_eq!(st.poll(false, false, 1001), NextStep::Wait);
    assert_eq!(st.poll(false, false, 1002), NextStep::Wait);
    assert_eq!(st.phase(), Phase::Running);
    assert_eq!(st.poll(true, true, 1003), NextStep::Wait);
    assert_eq!(st.consecutive_liveness_failures(), 0);
    assert_eq!(st.poll(false, false, 1004), NextStep::Wait);
    assert_eq!(st.poll(false, false, 1005), NextStep::Wait);
    assert_eq!(st.phase(), Phase::Running);
    assert_eq!(FAILURE_THRESHOLD, 3);
}

#[test]
fn process_dies_at_second_ten_without_successor() {
    let mut st = started(100);
    for t in 1..=10u64 {
        assert_eq!(st.poll(true, true, 1000 + t), NextStep::Wait);
    }
    assert_eq!(st.poll(false, false, 1011), NextStep::Wait);
    assert_eq!(st.poll(false, false, 1012), NextStep::Wait);
    assert_eq!(st.poll(false, false, 1013), NextStep::Reselect);
    assert_eq!(st.phase(), Phase::Switching);
    assert_eq!(st.accumulated_active_seconds(), 10);
    assert_eq!(st.reselect(false, &Vec::new()), NextStep::Finish);
    assert_eq!(st.phase(), Phase::Ended);
    let (res, ev) = st.finish(1013);
    assert_eq!(res.total_seconds, 10);
    assert_eq!(res.total_minutes, 0);
    assert_eq!(res.end_time, 1013);
    assert_eq!(res.final_pid, 100);
    assert_eq!(
        ev,
        SessionEvent::Ended {
            game_id: 7,
            start_time: 1000,
            end_time: 1013,
            total_minutes: 0,
            total_seconds: 10,
            process_id: 100,
        }
    );
}

#[test]
fn lost_process_switches_to_successor() {
    let mut st = started(100);
    for t in 1..=3u64 {
        st.poll(false, false, 1000 + t);
    }
    let cands = vec![
        ProcessCandidate { pid: 300, is_foreground: false, has_visible_window: false },
        ProcessCandidate { pid: 301, is_foreground: true, has_visible_window: true },
    ];
    assert_eq!(st.reselect(false, &cands), NextStep::Confirm(301));
    assert_eq!(st.phase(), Phase::Confirming(301));
    assert_eq!(
        st.confirm(true),
        NextStep::Switched(SessionEvent::Switched { game_id: 7, new_process_id: 301 })
    );
    assert_eq!(st.watched_pid(), 301);
    assert_eq!(st.original_pid(), 100);
    assert!(st.has_switched_process());
    assert_eq!(st.consecutive_liveness_failures(), 0);
    assert_eq!(st.phase(), Phase::Running);
    assert_eq!(st.poll(true, true, 1004), NextStep::Wait);
    assert_eq!(st.accumulated_active_seconds(), 1);
}

#[test]
fn same_pid_restart_adopted_only_before_first_switch() {
    // Before any switch the same pid may be adopted again.
    let mut st = started(100);
    for t in 1..=3u64 {
        st.poll(false, false, 1000 + t);
    }
    let same = vec![ProcessCandidate { pid: 100, is_foreground: false, has_visible_window: false }];
    assert_eq!(st.reselect(false, &same), NextStep::Confirm(100));
    assert!(matches!(st.confirm(true), NextStep::Switched(_)));
    // After a switch the same pid is no successor.
    for t in 4..=6u64 {
        st.poll(false, false, 1000 + t);
    }
    assert_eq!(st.reselect(false, &same), NextStep::Finish);
}

#[test]
fn dead_successor_ends_session() {
    let mut st = started(100);
    for t in 1..=3u64 {
        st.poll(false, false, 1000 + t);
    }
    let cands = vec![ProcessCandidate { pid: 400, is_foreground: false, has_visible_window: false }];
    assert_eq!(st.reselect(false, &cands), NextStep::Confirm(400));
    assert_eq!(st.confirm(false), NextStep::Finish);
    let (res, _) = st.finish(2000);
    assert_eq!(res.final_pid, 100);
}

#[test]
fn final_minutes_round_half_up() {
    let mut st = started(100);
    for t in 1..=90u64 {
        st.poll(true, true, 1000 + t);
    }
    for t in 91..=93u64 {
        st.poll(false, false, 1000 + t);
    }
    assert_eq!(st.reselect(false, &Vec::new()), NextStep::Finish);
    let (res, _) = st.finish(1093);
    assert_eq!(res.total_seconds, 90);
    assert_eq!(res.total_minutes, 2);
}

#[test]
fn event_order_in_one_session() {
    let mut events: Vec<SessionEvent> = Vec::new();
    let (mut st, first) = SessionState::start(&request(100), MonitorPolicy::default(), true, &Vec::new(), 0);
    events.push(first);
    let mut now = 0u64;
    let mut step = st.poll(true, true, now);
    let mut switched_once = false;
    loop {
        now += 1;
        step = match step {
            NextStep::Wait => {
                if now < 40 {
                    st.poll(true, true, now)
                } else {
                    st.poll(false, false, now)
                }
            }
            NextStep::Progress(e) => {
                events.push(e);
                st.poll(true, true, now)
            }
            NextStep::Reselect => {
                let c = if switched_once {
                    Vec::new()
                } else {
                    vec![ProcessCandidate { pid: 9, is_foreground: false, has_visible_window: true }]
                };
                st.reselect(false, &c)
            }
            NextStep::Confirm(_) => st.confirm(true),
            NextStep::Switched(e) => {
                switched_once = true;
                events.push(e);
                st.poll(false, false, now)
            }
            NextStep::Finish => break,
        };
    }
    let (_, last) = st.finish(now);
    events.push(last);
    assert!(matches!(events[0], SessionEvent::Started { .. }));
    assert!(matches!(events[events.len() - 1], SessionEvent::Ended { .. }));
    let starts = events.iter().filter(|e| matches!(e, SessionEvent::Started { .. })).count();
    let ends = events.iter().filter(|e| matches!(e, SessionEvent::Ended { .. })).count();
    let switches = events.iter().filter(|e| matches!(e, SessionEvent::Switched { .. })).count();
    assert_eq!(starts, 1);
    assert_eq!(ends, 1);
    assert_eq!(switches, 1);
    assert!(events.iter().any(|e| matches!(e, SessionEvent::Progress { .. })));
}

#[test]
fn event_names_and_payloads() {
    let e = SessionEvent::Progress {
        game_id: 1,
        total_minutes: 2,
        total_seconds: 150,
        start_time: 10,
        current_time: 160,
        process_id: 42,
    };
    assert_eq!(e.name(), "game-time-update");
    assert!(e.delivery_required());
    let p = e.payload();
    let keys: Vec<&str> = p.iter().map(|f| f.key).collect();
    assert_eq!(
        keys,
        vec!["gameId", "totalMinutes", "totalSeconds", "startTime", "currentTime", "processId"]
    );
    let values: Vec<u64> = p.iter().map(|f| f.value).collect();
    assert_eq!(values, vec![1, 2, 150, 10, 160, 42]);

    let s = SessionEvent::Started { game_id: 3, process_id: 4, start_time: 5 };
    assert_eq!(s.name(), "game-session-started");
    assert!(s.delivery_required());
    assert_eq!(s.payload().len(), 3);

    let w = SessionEvent::Switched { game_id: 3, new_process_id: 8 };
    assert_eq!(w.name(), "game-process-switched");
    assert!(!w.delivery_required());
    assert_eq!(w.payload()[1].key, "newProcessId");
    assert_eq!(w.payload()[1].value, 8);

    let d = SessionEvent::Ended {
        game_id: 3,
        start_time: 5,
        end_time: 6,
        total_minutes: 0,
        total_seconds: 1,
        process_id: 4,
    };
    assert_eq!(d.name(), "game-session-ended");
    assert!(!d.delivery_required());
    let keys: Vec<&str> = d.payload().iter().map(|f| f.key).collect();
    assert_eq!(keys, vec!["gameId", "startTime", "endTime", "totalMinutes", "totalSeconds", "processId"]);
}

#[test]
fn policy_validity_and_default() {
    let d = MonitorPolicy::default();
    assert_eq!(d.failure_threshold, FAILURE_THRESHOLD);
    assert_eq!(d.progress_interval_seconds, PROGRESS_INTERVAL_SECONDS);
    assert!(d.is_valid());
    assert!(!MonitorPolicy { failure_threshold: 1, progress_interval_seconds: 30 }.is_valid());
    assert!(!MonitorPolicy { failure_threshold: 3, progress_interval_seconds: 0 }.is_valid());
}

#[test]
fn custom_policy_threshold_and_cadence() {
    let policy = MonitorPolicy { failure_threshold: 2, progress_interval_seconds: 10 };
    let (mut st, _) = SessionState::start(&request(100), policy, true, &Vec::new(), 0);
    assert_eq!(st.policy(), policy);
    for t in 1..10u64 {
        assert_eq!(st.poll(true, true, t), NextStep::Wait);
    }
    assert!(matches!(st.poll(true, true, 10), NextStep::Progress(_)));
    assert_eq!(st.poll(false, false, 11), NextStep::Wait);
    assert_eq!(st.poll(false, false, 12), NextStep::Reselect);
}
