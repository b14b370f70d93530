use f1_bot::error::Error;
use f1_bot::model::{NotificationSetting, Series, SessionKind, SessionStatus, WeekendStatus};
use f1_bot::notifs::{
    check_active_session, check_expired_weekend, check_notify_session, check_weekends,
    mark_session_notified, runner, Closing, Outcome, PersistentStep,
};
use f1_bot::record::{timestamp, Session, Weekend};
use f1_bot::schedule::FullWeekend;

const NOW: i64 = 1_700_000_000_000;
const MINUTE: i64 = 60_000;

fn session(id: i32, kind: SessionKind, status: SessionStatus, start: i64) -> Session {
    Session {
        id,
        weekend: 1,
        kind,
        status,
        notify: NotificationSetting::Notify,
        duration: 3600,
        date: start,
        number: None,
        title: None,
    }
}

fn weekend(sessions: Vec<Session>) -> FullWeekend {
    FullWeekend {
        weekend: Weekend {
            id: 1,
            series: Series::F1,
            name: "Example GP".to_string(),
            icon: "🏁".to_string(),
            year: 2023,
            start_date: NOW - 2 * 24 * 60 * MINUTE,
            status: WeekendStatus::Open,
        },
        sessions,
    }
}

fn statuses(w: &FullWeekend) -> Vec<SessionStatus> {
    w.sessions.iter().map(|s| s.status).collect()
}

#[test]
fn window_upper_bound_is_exclusive() {
    let s = session(1, SessionKind::Race, SessionStatus::Open, NOW + 5 * MINUTE + 1);
    assert!(!s.is_in_window(NOW));
    assert!(!s.is_actionable(NOW));
    let at_five = session(1, SessionKind::Race, SessionStatus::Open, NOW + 5 * MINUTE);
    assert!(!at_five.is_actionable(NOW));
    let w = weekend(vec![s]);
    assert!(w.next_session(NOW).is_none());
}

#[test]
fn window_holds_four_minutes_fifty_nine() {
    let s = session(1, SessionKind::Race, SessionStatus::Open, NOW + 4 * MINUTE + 59_000);
    assert!(s.is_actionable(NOW));
    let last = session(1, SessionKind::Race, SessionStatus::Open, NOW + 5 * MINUTE - 1);
    assert!(last.is_actionable(NOW));
    let w = weekend(vec![s]);
    assert_eq!(w.next_session(NOW).map(|s| s.id), Some(1));
    assert_eq!(w.next_index(NOW), Some(0));
}

#[test]
fn window_lower_bound_is_inclusive() {
    let started = session(1, SessionKind::Race, SessionStatus::Open, NOW - 1);
    assert!(!started.is_actionable(NOW));
    let starting = session(1, SessionKind::Race, SessionStatus::Open, NOW);
    assert!(starting.is_actionable(NOW));
}

#[test]
fn window_at_the_ends_of_time() {
    let s = session(1, SessionKind::Race, SessionStatus::Open, i64::MAX);
    assert!(s.is_in_window(i64::MAX));
    assert!(s.is_in_window(i64::MAX - 299_999));
    assert!(!s.is_in_window(i64::MAX - 300_000));
    assert!(!s.is_in_window(i64::MIN));
    let early = session(1, SessionKind::Race, SessionStatus::Open, i64::MIN);
    assert!(early.is_in_window(i64::MIN));
    assert!(!early.is_in_window(i64::MAX));
}

#[test]
fn only_pending_sessions_that_notify_are_actionable() {
    for status in [SessionStatus::Open, SessionStatus::Delayed] {
        assert!(session(1, SessionKind::Race, status, NOW + MINUTE).is_actionable(NOW));
    }
    for status in
        [SessionStatus::Finished, SessionStatus::Cancelled, SessionStatus::Unsupported]
    {
        assert!(!session(1, SessionKind::Race, status, NOW + MINUTE).is_actionable(NOW));
    }
    let mut ignored = session(1, SessionKind::Race, SessionStatus::Open, NOW + MINUTE);
    ignored.notify = NotificationSetting::Ignore;
    assert!(!ignored.is_actionable(NOW));
    assert!(ignored.is_skippable(NOW));
}

#[test]
fn earliest_start_wins_then_lowest_id() {
    let w = weekend(vec![
        session(7, SessionKind::Race, SessionStatus::Open, NOW + 3 * MINUTE),
        session(9, SessionKind::Qualifying, SessionStatus::Open, NOW + 2 * MINUTE),
        session(4, SessionKind::Practice, SessionStatus::Delayed, NOW + 2 * MINUTE),
        session(5, SessionKind::Practice, SessionStatus::Open, NOW + 10 * MINUTE),
    ]);
    assert_eq!(w.next_index(NOW), Some(2));
    assert_eq!(w.next_session(NOW).map(|s| s.id), Some(4));
}

#[test]
fn equal_sessions_give_the_first() {
    let w = weekend(vec![
        session(4, SessionKind::Race, SessionStatus::Open, NOW + MINUTE),
        session(4, SessionKind::SprintRace, SessionStatus::Open, NOW + MINUTE),
    ]);
    assert_eq!(w.next_index(NOW), Some(0));
}

#[test]
fn done_weekend_announces_nothing() {
    let mut w = weekend(vec![session(1, SessionKind::Race, SessionStatus::Open, NOW + MINUTE)]);
    w.weekend.status = WeekendStatus::Done;
    assert!(w.next_session(NOW).is_none());
    assert!(check_active_session(Some(&w), NOW).is_none());
    w.weekend.status = WeekendStatus::Cancelled;
    assert_eq!(w.next_index(NOW), Some(0));
}

#[test]
fn weekend_is_terminal_when_all_sessions_are() {
    let mut w = weekend(vec![
        session(1, SessionKind::Practice, SessionStatus::Finished, NOW - 3 * 60 * MINUTE),
        session(2, SessionKind::Qualifying, SessionStatus::Finished, NOW - 2 * 60 * MINUTE),
        session(3, SessionKind::Race, SessionStatus::Cancelled, NOW - 60 * MINUTE),
    ]);
    assert!(w.is_done());
    for i in 0..3 {
        let before = w.sessions[i].status;
        w.sessions[i].status = SessionStatus::Open;
        assert!(!w.is_done());
        w.sessions[i].status = before;
    }
    assert!(w.is_done());
}

#[test]
fn weekend_without_sessions_is_not_terminal() {
    let mut w = weekend(vec![]);
    assert!(!w.is_done());
    assert!(!w.mark_weekend_done());
    assert_eq!(w.weekend.status, WeekendStatus::Open);
    w.weekend.status = WeekendStatus::Done;
    assert!(w.is_done());
}

#[test]
fn unsupported_or_delayed_session_keeps_weekend_open() {
    let mut w = weekend(vec![
        session(1, SessionKind::Practice, SessionStatus::Finished, NOW),
        session(2, SessionKind::Race, SessionStatus::Unsupported, NOW),
    ]);
    assert!(!w.is_done());
    w.sessions[1].status = SessionStatus::Delayed;
    assert!(!w.is_done());
}

#[test]
fn check_is_done_counts_the_modified_session_as_over() {
    let w = weekend(vec![
        session(1, SessionKind::Practice, SessionStatus::Finished, NOW),
        session(2, SessionKind::Race, SessionStatus::Open, NOW),
    ]);
    assert!(!w.is_done());
    assert!(w.check_is_done(&w.sessions[1]));
    assert!(!w.check_is_done(&w.sessions[0]));
    let empty = weekend(vec![]);
    assert!(!empty.check_is_done(&w.sessions[0]));
}

#[test]
fn finished_session_is_never_due_again() {
    let mut w = weekend(vec![
        session(1, SessionKind::Race, SessionStatus::Open, NOW + 3 * MINUTE),
        session(2, SessionKind::Qualifying, SessionStatus::Open, NOW + 4 * MINUTE),
    ]);
    assert_eq!(w.next_session(NOW).map(|s| s.id), Some(1));
    assert_eq!(w.mark_session_done(1), Ok(()));
    assert_eq!(w.sessions[0].status, SessionStatus::Finished);
    for _ in 0..3 {
        assert_eq!(w.next_session(NOW).map(|s| s.id), Some(2));
    }
    assert_eq!(w.mark_session_done(2), Ok(()));
    for later in [NOW, NOW + MINUTE, NOW - MINUTE, NOW + 3 * MINUTE] {
        assert!(w.next_session(later).is_none());
    }
}

#[test]
fn marking_an_unknown_session_fails() {
    let mut w = weekend(vec![session(1, SessionKind::Race, SessionStatus::Open, NOW)]);
    assert_eq!(w.mark_session_done(5), Err(Error::NotFound));
    assert_eq!(statuses(&w), vec![SessionStatus::Open]);
    assert_eq!(mark_session_notified(&mut w, 5), Err(Error::NotFound));
    assert_eq!(statuses(&w), vec![SessionStatus::Open]);
    assert_eq!(w.weekend.status, WeekendStatus::Open);
}

#[test]
fn status_never_leaves_a_terminal_state() {
    let mut w = weekend(vec![
        session(1, SessionKind::Practice, SessionStatus::Cancelled, NOW + MINUTE),
        session(2, SessionKind::Qualifying, SessionStatus::Finished, NOW + MINUTE),
        session(3, SessionKind::Race, SessionStatus::Unsupported, NOW + MINUTE),
        session(4, SessionKind::Race, SessionStatus::Delayed, NOW + MINUTE),
    ]);
    w.sessions[0].notify = NotificationSetting::Ignore;
    for id in [1, 2, 3] {
        assert_eq!(w.mark_session_done(id), Ok(()));
    }
    assert!(w.skip_ignored(NOW).is_empty());
    assert!(!w.mark_weekend_done());
    assert_eq!(
        statuses(&w),
        vec![
            SessionStatus::Cancelled,
            SessionStatus::Finished,
            SessionStatus::Unsupported,
            SessionStatus::Delayed
        ]
    );
    assert_eq!(w.mark_session_done(4), Ok(()));
    assert_eq!(w.sessions[3].status, SessionStatus::Finished);
    w.sessions[2].status = SessionStatus::Cancelled;
    assert!(w.mark_weekend_done());
    assert_eq!(w.weekend.status, WeekendStatus::Done);
    assert!(!w.mark_weekend_done());
    assert_eq!(w.weekend.status, WeekendStatus::Done);
}

#[test]
fn cancelled_weekend_is_not_reopened_or_closed() {
    let mut w = weekend(vec![session(1, SessionKind::Race, SessionStatus::Finished, NOW)]);
    w.weekend.status = WeekendStatus::Cancelled;
    assert!(w.is_done());
    assert!(!w.mark_weekend_done());
    assert_eq!(w.weekend.status, WeekendStatus::Cancelled);
}

#[test]
fn ignored_sessions_are_finished_silently() {
    let mut quiet = session(1, SessionKind::Practice, SessionStatus::Open, NOW + MINUTE);
    quiet.notify = NotificationSetting::Ignore;
    let mut far = session(2, SessionKind::Practice, SessionStatus::Open, NOW + 10 * MINUTE);
    far.notify = NotificationSetting::Ignore;
    let mut delayed = session(3, SessionKind::Practice, SessionStatus::Delayed, NOW);
    delayed.notify = NotificationSetting::Ignore;
    let loud = session(4, SessionKind::Race, SessionStatus::Open, NOW + 2 * MINUTE);
    let mut w = weekend(vec![quiet, far, delayed, loud]);
    let found = check_notify_session(&mut w, NOW);
    assert_eq!(found.skipped, vec![1, 3]);
    assert_eq!(found.session, Some(3));
    assert_eq!(
        statuses(&w),
        vec![
            SessionStatus::Finished,
            SessionStatus::Open,
            SessionStatus::Finished,
            SessionStatus::Open
        ]
    );
    let again = check_notify_session(&mut w, NOW);
    assert!(again.skipped.is_empty());
    assert_eq!(again.session, Some(3));
}

#[test]
fn end_to_end_pass() {
    let a = session(1, SessionKind::Race, SessionStatus::Open, NOW + 3 * MINUTE);
    let b = session(2, SessionKind::Qualifying, SessionStatus::Finished, NOW - 120 * MINUTE);
    let mut w = weekend(vec![a, b]);
    let plan = runner(&mut w, &Vec::new(), 77, 88, NOW, Outcome::Done);
    assert!(plan.skipped.is_empty());
    assert!(!plan.closed);
    let notice = plan.notice.expect("session A is due");
    assert_eq!(notice.session, 1);
    assert_eq!(notice.channel, 77);
    assert_eq!(plan.expire, None);
    assert_eq!(
        notice.content,
        format!("<@&88>\n🏁 Example GP Race is starting: <t:{}:R>", (NOW + 3 * MINUTE) / 1000)
    );
    assert!(matches!(plan.persistent, PersistentStep::Post { channel: 77, .. }));
    assert_eq!(w.sessions[0].status, SessionStatus::Open);

    let closing = mark_session_notified(&mut w, 1);
    assert_eq!(
        closing,
        Ok(Closing { session: 1, weekend: Some(1), expire: Some(Series::F1) })
    );
    assert_eq!(w.sessions[0].status, SessionStatus::Finished);
    assert_eq!(w.weekend.status, WeekendStatus::Done);
    assert!(w.is_done());

    let next = runner(&mut w, &Vec::new(), 77, 88, NOW, Outcome::Done);
    assert!(next.notice.is_none());
    assert!(!next.closed);
    assert!(matches!(next.persistent, PersistentStep::Keep));
}

#[test]
fn failed_send_leaves_the_session_due() {
    let mut w = weekend(vec![session(1, SessionKind::Race, SessionStatus::Open, NOW + MINUTE)]);
    let first = runner(&mut w, &Vec::new(), 77, 88, NOW, Outcome::Done);
    assert_eq!(first.notice.map(|n| n.session), Some(1));
    let second = runner(&mut w, &Vec::new(), 77, 88, NOW + 5_000, Outcome::Done);
    assert_eq!(second.notice.map(|n| n.session), Some(1));
    assert_eq!(w.sessions[0].status, SessionStatus::Open);
}

#[test]
fn runner_closes_a_weekend_that_is_over() {
    let mut w = weekend(vec![
        session(1, SessionKind::Race, SessionStatus::Cancelled, NOW),
        session(2, SessionKind::Race, SessionStatus::Finished, NOW),
    ]);
    let plan = runner(&mut w, &Vec::new(), 77, 88, NOW, Outcome::Done);
    assert!(plan.closed);
    assert_eq!(plan.expire, Some(Series::F1));
    assert!(plan.notice.is_none());
    assert_eq!(w.weekend.status, WeekendStatus::Done);
    assert!(matches!(plan.persistent, PersistentStep::Keep));
    let again = runner(&mut w, &Vec::new(), 77, 88, NOW, Outcome::Done);
    assert!(!again.closed);
    assert_eq!(again.expire, None);
}

#[test]
fn runner_closes_after_the_last_session_was_skipped() {
    let mut quiet = session(1, SessionKind::Practice, SessionStatus::Open, NOW + MINUTE);
    quiet.notify = NotificationSetting::Ignore;
    let mut w = weekend(vec![quiet]);
    let plan = runner(&mut w, &Vec::new(), 77, 88, NOW, Outcome::Done);
    assert_eq!(plan.skipped, vec![1]);
    assert!(plan.closed);
    assert_eq!(plan.expire, Some(Series::F1));
    assert!(plan.notice.is_none());
    assert_eq!(w.weekend.status, WeekendStatus::Done);
}

#[test]
fn mark_session_notified_keeps_weekend_open_while_sessions_remain() {
    let mut w = weekend(vec![
        session(1, SessionKind::Qualifying, SessionStatus::Open, NOW),
        session(2, SessionKind::Race, SessionStatus::Open, NOW + 24 * 60 * MINUTE),
    ]);
    assert_eq!(
        mark_session_notified(&mut w, 1),
        Ok(Closing { session: 1, weekend: None, expire: None })
    );
    assert_eq!(w.weekend.status, WeekendStatus::Open);
    assert_eq!(statuses(&w), vec![SessionStatus::Finished, SessionStatus::Open]);
}

#[test]
fn active_session_comes_with_its_weekend() {
    let w = weekend(vec![session(3, SessionKind::Race, SessionStatus::Open, NOW + MINUTE)]);
    let (found, s) = check_active_session(Some(&w), NOW).expect("a session is due");
    assert_eq!(found.id, 1);
    assert_eq!(found.name, "Example GP");
    assert_eq!(s.id, 3);
    assert!(check_active_session(None, NOW).is_none());
    assert!(check_active_session(Some(&w), NOW + 10 * MINUTE).is_none());
}

#[test]
fn expired_weekend_is_found_by_the_modified_session() {
    let w = weekend(vec![
        session(1, SessionKind::Qualifying, SessionStatus::Finished, NOW),
        session(2, SessionKind::Race, SessionStatus::Open, NOW),
    ]);
    let mut done = session(2, SessionKind::Race, SessionStatus::Finished, NOW);
    assert_eq!(check_expired_weekend(Some(&w), &done), Some(Series::F1));
    done.status = SessionStatus::Delayed;
    assert_eq!(check_expired_weekend(Some(&w), &done), None);
    done.status = SessionStatus::Cancelled;
    done.id = 1;
    assert_eq!(check_expired_weekend(Some(&w), &done), None);
    assert_eq!(check_expired_weekend(None, &done), None);
    assert_eq!(check_expired_weekend(Some(&weekend(vec![])), &done), None);
    let mut closed = weekend(vec![session(1, SessionKind::Race, SessionStatus::Finished, NOW)]);
    closed.weekend.status = WeekendStatus::Done;
    assert_eq!(check_expired_weekend(Some(&closed), &done), None);
}

#[test]
fn check_weekends_lists_open_weekends_that_are_over() {
    let mut over = weekend(vec![session(1, SessionKind::Race, SessionStatus::Finished, NOW)]);
    over.weekend.id = 10;
    let mut running = weekend(vec![session(2, SessionKind::Race, SessionStatus::Open, NOW)]);
    running.weekend.id = 11;
    let mut empty = weekend(vec![]);
    empty.weekend.id = 12;
    let mut closed = weekend(vec![session(3, SessionKind::Race, SessionStatus::Finished, NOW)]);
    closed.weekend.id = 13;
    closed.weekend.status = WeekendStatus::Done;
    let mut cancelled = weekend(vec![session(4, SessionKind::Race, SessionStatus::Cancelled, NOW)]);
    cancelled.weekend.id = 14;
    let all = vec![over, running, empty, closed, cancelled];
    assert_eq!(check_weekends(&all), vec![10, 14]);
    assert!(check_weekends(&Vec::new()).is_empty());
}

#[test]
fn timestamp_rounds_down() {
    assert_eq!(timestamp(0), 0);
    assert_eq!(timestamp(999), 0);
    assert_eq!(timestamp(1000), 1);
    assert_eq!(timestamp(-1), -1);
    assert_eq!(timestamp(-1000), -1);
    assert_eq!(timestamp(-1001), -2);
    assert_eq!(timestamp(i64::MIN), -9_223_372_036_854_776);
    assert_eq!(timestamp(i64::MAX), 9_223_372_036_854_775);
}

#[test]
fn session_is_over_after_its_length() {
    let s = session(1, SessionKind::Race, SessionStatus::Open, NOW);
    assert!(!s.over(NOW));
    assert!(!s.over(NOW + 3_600_000));
    assert!(!s.over(NOW + 3_600_999));
    assert!(s.over(NOW + 3_601_000));
    let mut endless = session(1, SessionKind::Race, SessionStatus::Open, i64::MAX);
    endless.duration = i64::MAX;
    assert!(!endless.over(i64::MAX));
    endless.duration = i64::MIN;
    endless.date = i64::MIN;
    assert!(endless.over(i64::MIN));
}

#[test]
fn weekends_are_the_same_by_id() {
    let a = weekend(vec![]).weekend;
    let mut b = weekend(vec![]).weekend;
    b.name = "Another name".to_string();
    b.year = 1;
    b.status = WeekendStatus::Done;
    assert!(a == b);
    b.id = 2;
    assert!(a != b);
}

#[test]
fn a_session_that_is_over_is_not_finished_again() {
    let mut w = weekend(vec![
        session(1, SessionKind::Race, SessionStatus::Cancelled, NOW),
        session(2, SessionKind::Race, SessionStatus::Finished, NOW),
        session(3, SessionKind::Race, SessionStatus::Unsupported, NOW),
        session(4, SessionKind::Race, SessionStatus::Open, NOW),
    ]);
    for id in [1, 2, 3] {
        assert_eq!(mark_session_notified(&mut w, id), Err(Error::NotFound));
    }
    assert_eq!(
        statuses(&w),
        vec![
            SessionStatus::Cancelled,
            SessionStatus::Finished,
            SessionStatus::Unsupported,
            SessionStatus::Open
        ]
    );
    assert_eq!(w.weekend.status, WeekendStatus::Open);

    let mut over = weekend(vec![session(1, SessionKind::Race, SessionStatus::Cancelled, NOW)]);
    assert_eq!(mark_session_notified(&mut over, 1), Err(Error::NotFound));
    assert_eq!(over.weekend.status, WeekendStatus::Open);
    assert_eq!(over.sessions[0].status, SessionStatus::Cancelled);

    let mut delayed = weekend(vec![session(1, SessionKind::Race, SessionStatus::Delayed, NOW)]);
    assert_eq!(
        mark_session_notified(&mut delayed, 1),
        Ok(Closing { session: 1, weekend: Some(1), expire: Some(Series::F1) })
    );
    assert_eq!(mark_session_notified(&mut delayed, 1), Err(Error::NotFound));
}
