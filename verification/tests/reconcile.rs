use f1_bot::calendar::{
    calendar_due, create_calendar, delete_latest_calendar_message, edit_calendar,
    get_calendar_notifs, reserve_calendar_message, CalendarStep,
};
use f1_bot::error::Error;
use f1_bot::model::{
    MessageKind, NotificationSetting, Series, SessionKind, SessionStatus, WeekendStatus,
};
use f1_bot::notifs::{
    check_expired_messages, create_new_notifications_msg_db, create_persistent_message,
    delete_persistent_message, expired_messages, expiry, fetch_weekend_message_for_series,
    get_persistent_message, hints, post_weekend_message,
    can_send, mark_weekend_message_for_series_expired, post_new_persistent, runner,
    send_notification, update_persistent_message, without_call, MessageEdit, MessageRef, Outcome,
    PersistentStep, Settle,
};
use f1_bot::record::{BotMessage, Session, Weekend};
use f1_bot::schedule::FullWeekend;
use f1_bot::tools::best_weekend;

const NOW: i64 = 1_700_000_000_000;

fn session(id: i32, start: i64, title: &str) -> Session {
    Session {
        id,
        weekend: 1,
        kind: SessionKind::Custom,
        status: SessionStatus::Open,
        notify: NotificationSetting::Notify,
        duration: 3600,
        date: start,
        number: None,
        title: Some(title.to_string()),
    }
}

fn weekend(id: i32, start: i64, name: &str) -> FullWeekend {
    FullWeekend {
        weekend: Weekend {
            id,
            series: Series::F2,
            name: name.to_string(),
            icon: "🏎".to_string(),
            year: 2024,
            start_date: start,
            status: WeekendStatus::Open,
        },
        sessions: vec![session(id * 10, start + 1000, "Race")],
    }
}

fn message(id: i64, posted: i64, hash: Option<u64>) -> BotMessage {
    BotMessage {
        id,
        channel: 500,
        message: 9000 + id as u64,
        kind: MessageKind::Calendar,
        posted,
        expiry: None,
        hash,
        series: Series::F2,
    }
}

fn count_reserves(steps: &[CalendarStep]) -> usize {
    steps.iter().filter(|s| matches!(s, CalendarStep::Reserve { .. })).count()
}

fn count_deletes(steps: &[CalendarStep]) -> usize {
    steps.iter().filter(|s| matches!(s, CalendarStep::Delete(_))).count()
}

#[test]
fn fewer_messages_than_weekends_reserves_the_difference() {
    let weekends: Vec<FullWeekend> =
        (0..5).map(|i| weekend(i, NOW + i as i64 * 1000, "GP")).collect();
    let messages: Vec<BotMessage> = (0..3).map(|i| message(i, NOW + i, None)).collect();
    let steps = create_calendar(&messages, &weekends, Series::F2, 500, NOW);
    assert_eq!(steps.len(), 2);
    assert_eq!(count_reserves(&steps), 2);
    assert_eq!(count_deletes(&steps), 0);
    assert_eq!(steps[0], CalendarStep::Reserve { channel: 500, series: Series::F2 });
    assert_eq!(steps[1], CalendarStep::Reserve { channel: 500, series: Series::F2 });
}

#[test]
fn more_messages_than_weekends_deletes_the_latest() {
    let weekends: Vec<FullWeekend> =
        (0..3).map(|i| weekend(i, NOW + i as i64 * 1000, "GP")).collect();
    let messages = vec![
        message(1, NOW + 40, None),
        message(2, NOW + 10, None),
        message(3, NOW + 50, None),
        message(4, NOW + 20, None),
        message(5, NOW + 30, None),
    ];
    let steps = create_calendar(&messages, &weekends, Series::F2, 500, NOW);
    assert_eq!(count_reserves(&steps), 0);
    assert_eq!(count_deletes(&steps), 2);
    assert_eq!(
        steps,
        vec![
            CalendarStep::Delete(MessageRef { id: 3, channel: 500, message: 9003 }),
            CalendarStep::Delete(MessageRef { id: 1, channel: 500, message: 9001 }),
        ]
    );
}

#[test]
fn equal_counts_need_no_step() {
    let weekends: Vec<FullWeekend> = (0..2).map(|i| weekend(i, NOW, "GP")).collect();
    let messages: Vec<BotMessage> = (0..2).map(|i| message(i, NOW, None)).collect();
    assert!(create_calendar(&messages, &weekends, Series::F2, 500, NOW).is_empty());
    assert!(create_calendar(&Vec::new(), &Vec::new(), Series::F2, 500, NOW).is_empty());
}

#[test]
fn latest_calendar_message_is_the_last_posted() {
    let messages =
        vec![message(1, NOW + 40, None), message(2, NOW + 90, None), message(3, NOW + 50, None)];
    assert_eq!(
        delete_latest_calendar_message(&messages, 500, Series::F2, NOW),
        Some(MessageRef { id: 2, channel: 500, message: 9002 })
    );
    assert_eq!(delete_latest_calendar_message(&Vec::new(), 500, Series::F2, NOW), None);
    let tied = vec![message(1, NOW, None), message(2, NOW, None)];
    assert_eq!(delete_latest_calendar_message(&tied, 500, Series::F2, NOW).map(|m| m.id), Some(2));
}

#[test]
fn edit_calendar_pairs_by_start_and_by_posting() {
    let weekends = vec![weekend(2, NOW + 2000, "Second"), weekend(1, NOW + 1000, "First")];
    let messages = vec![message(8, NOW + 20, None), message(7, NOW + 10, None)];
    let edits = edit_calendar(&messages, &weekends, Series::F2, 500, NOW).expect("same length");
    assert_eq!(edits.len(), 2);
    assert_eq!(edits[0].id, 7);
    assert_eq!(edits[0].channel, 500);
    assert_eq!(edits[0].message, 9007);
    assert_eq!(edits[0].hash, weekends[1].fingerprint());
    assert_eq!(
        edits[0].content,
        format!(
            "## 🏎 **First**\n> `        Race` <t:{0}:f> (<t:{0}:R>)",
            (NOW + 2000) / 1000
        )
    );
    assert_eq!(edits[1].id, 8);
    assert_eq!(edits[1].hash, weekends[0].fingerprint());
    assert!(edits[1].content.starts_with("## 🏎 **Second**"));
}

#[test]
fn unchanged_calendar_is_not_edited_again() {
    let weekends = vec![weekend(1, NOW + 1000, "First"), weekend(2, NOW + 2000, "Second")];
    let mut messages = vec![message(7, NOW + 10, None), message(8, NOW + 20, None)];
    let first = edit_calendar(&messages, &weekends, Series::F2, 500, NOW).expect("same length");
    assert_eq!(first.len(), 2);
    for edit in &first {
        match update_persistent_message(edit, Outcome::Done) {
            Settle::StoreHash { id, hash } => {
                for m in messages.iter_mut() {
                    if m.id == id {
                        m.hash = Some(hash);
                    }
                }
            },
            other => panic!("unexpected {other:?}"),
        }
    }
    let second = edit_calendar(&messages, &weekends, Series::F2, 500, NOW).expect("same length");
    assert!(second.is_empty());
}

#[test]
fn only_changed_weekends_are_edited() {
    let mut weekends = vec![weekend(1, NOW + 1000, "First"), weekend(2, NOW + 2000, "Second")];
    let messages = vec![
        message(7, NOW + 10, Some(weekends[0].fingerprint())),
        message(8, NOW + 20, Some(weekends[1].fingerprint())),
    ];
    assert!(edit_calendar(&messages, &weekends, Series::F2, 500, NOW).expect("same length").is_empty());
    weekends[1].sessions[0].status = SessionStatus::Cancelled;
    let edits = edit_calendar(&messages, &weekends, Series::F2, 500, NOW).expect("same length");
    assert_eq!(edits.len(), 1);
    assert_eq!(edits[0].id, 8);
}

#[test]
fn edit_calendar_refuses_different_lengths() {
    let weekends = vec![weekend(1, NOW, "First")];
    let messages = vec![message(7, NOW, None), message(8, NOW, None)];
    assert_eq!(edit_calendar(&messages, &weekends, Series::F2, 500, NOW).err(), Some(Error::NotSameLen));
    assert_eq!(edit_calendar(&Vec::new(), &weekends, Series::F2, 500, NOW).err(), Some(Error::NotSameLen));
    assert!(edit_calendar(&Vec::new(), &Vec::new(), Series::F2, 500, NOW).expect("both empty").is_empty());
}

#[test]
fn reserved_message_record() {
    let m = reserve_calendar_message(500, Series::F3, 1234, NOW);
    assert_eq!(m.channel, 500);
    assert_eq!(m.message, 1234);
    assert_eq!(m.kind, MessageKind::Calendar);
    assert_eq!(m.posted, NOW);
    assert_eq!(m.expiry, None);
    assert_eq!(m.hash, None);
    assert_eq!(m.series, Series::F3);
}

#[test]
fn calendar_is_due_every_five_minutes() {
    assert!(calendar_due(None, NOW));
    assert!(!calendar_due(Some(NOW), NOW));
    assert!(!calendar_due(Some(NOW), NOW + 299_999));
    assert!(calendar_due(Some(NOW), NOW + 300_000));
    assert!(!calendar_due(Some(NOW), NOW - 1));
    assert!(calendar_due(Some(i64::MIN), i64::MAX));
    assert!(!calendar_due(Some(i64::MAX), i64::MIN));
}

#[test]
fn persistent_message_is_posted_when_none_exists() {
    let w = weekend(1, NOW, "First");
    match create_persistent_message(&Vec::new(), Some(&w), 500, w.weekend.series, NOW, Outcome::Done) {
        PersistentStep::Post { channel, content, hash, stale } => {
            assert_eq!(channel, 500);
            assert_eq!(hash, w.fingerprint());
            assert_eq!(content, w.weekend_msg_str(false, NOW));
            assert_eq!(stale, None);
        },
        other => panic!("unexpected {other:?}"),
    }
    let record = post_new_persistent(&w, 500, 4321, NOW);
    assert_eq!(record.kind, MessageKind::Persistent);
    assert_eq!(record.message, 4321);
    assert_eq!(record.channel, 500);
    assert_eq!(record.posted, NOW);
    assert_eq!(record.expiry, None);
    assert_eq!(record.hash, Some(w.fingerprint()));
    assert_eq!(record.series, Series::F2);
    assert!(matches!(
        create_persistent_message(&vec![record.stored(8)], Some(&w), 500, Series::F2, NOW + 5000, Outcome::Done),
        PersistentStep::Keep
    ));
}

#[test]
fn unchanged_weekend_is_not_edited_again() {
    let w = weekend(1, NOW, "First");
    let mut record = message(3, NOW, Some(1));
    record.kind = MessageKind::Persistent;
    let mut records = vec![message(9, NOW, Some(7)), record];
    let edit = match create_persistent_message(&records, Some(&w), 500, Series::F2, NOW, Outcome::Done) {
        PersistentStep::Edit(edit) => edit,
        other => panic!("unexpected {other:?}"),
    };
    assert_eq!(edit.id, 3);
    assert_eq!(edit.channel, 500);
    assert_eq!(edit.message, 9003);
    assert_eq!(edit.hash, w.fingerprint());
    assert_eq!(
        update_persistent_message(&edit, Outcome::Done),
        Settle::StoreHash { id: 3, hash: w.fingerprint() }
    );
    records[1].hash = Some(edit.hash);
    for later in [NOW, NOW + 5000, NOW + 10_000] {
        assert!(matches!(
            create_persistent_message(&records, Some(&w), 500, Series::F2, later, Outcome::Done),
            PersistentStep::Keep
        ));
    }
}

#[test]
fn series_with_a_role_get_the_hint() {
    let mut w = weekend(1, NOW, "First");
    for (series, hint) in [
        (Series::F1, true),
        (Series::F1Academy, true),
        (Series::F2, false),
        (Series::F3, false),
        (Series::Unsupported, false),
    ] {
        w.weekend.series = series;
        match create_persistent_message(&Vec::new(), Some(&w), 500, w.weekend.series, NOW, Outcome::Done) {
            PersistentStep::Post { content, .. } => {
                assert_eq!(content, w.weekend_msg_str(hint, NOW));
            },
            other => panic!("unexpected {other:?}"),
        }
    }
}

#[test]
fn stale_persistent_message_is_removed() {
    let mut record = message(3, NOW, Some(1));
    record.kind = MessageKind::Persistent;
    let target = MessageRef { id: 3, channel: 500, message: 9003 };
    let records = vec![record];
    match create_persistent_message(&records, None, 500, Series::F2, NOW, Outcome::Done) {
        PersistentStep::Remove(m) => assert_eq!(m, target),
        other => panic!("unexpected {other:?}"),
    }
    let mut over = weekend(1, NOW, "First");
    over.sessions[0].status = SessionStatus::Finished;
    match create_persistent_message(&records, Some(&over), 500, Series::F2, NOW, Outcome::Done) {
        PersistentStep::Remove(m) => assert_eq!(m, target),
        other => panic!("unexpected {other:?}"),
    }
    assert!(matches!(
        create_persistent_message(&Vec::new(), None, 500, Series::F2, NOW, Outcome::Done),
        PersistentStep::Keep
    ));
    assert!(matches!(
        create_persistent_message(&Vec::new(), Some(&over), 500, Series::F2, NOW, Outcome::Done),
        PersistentStep::Keep
    ));
    assert!(matches!(
        create_persistent_message(&records, None, 500, Series::F1, NOW, Outcome::Done),
        PersistentStep::Keep
    ));
    assert!(matches!(
        create_persistent_message(&records, None, 501, Series::F2, NOW, Outcome::Done),
        PersistentStep::Keep
    ));
}

#[test]
fn edit_outcomes() {
    let edit = MessageEdit { id: 3, channel: 1, message: 2, content: String::new(), hash: 99 };
    assert_eq!(
        update_persistent_message(&edit, Outcome::Done),
        Settle::StoreHash { id: 3, hash: 99 }
    );
    assert_eq!(update_persistent_message(&edit, Outcome::NotFound), Settle::Forget { id: 3 });
    assert_eq!(update_persistent_message(&edit, Outcome::Failed), Settle::Keep);
}

#[test]
fn delete_outcomes() {
    let target = MessageRef { id: 3, channel: 1, message: 2 };
    assert_eq!(delete_persistent_message(target, Outcome::Done), Settle::Forget { id: 3 });
    assert_eq!(delete_persistent_message(target, Outcome::NotFound), Settle::Forget { id: 3 });
    assert_eq!(delete_persistent_message(target, Outcome::Failed), Settle::Keep);
}

#[test]
fn outcome_of_a_status() {
    assert_eq!(Outcome::of_status(Some(404)), Outcome::NotFound);
    assert_eq!(Outcome::of_status(Some(429)), Outcome::Failed);
    assert_eq!(Outcome::of_status(Some(500)), Outcome::Failed);
    assert_eq!(Outcome::of_status(Some(200)), Outcome::Failed);
    assert_eq!(Outcome::of_status(None), Outcome::Failed);
}

#[test]
fn the_persistent_message_is_the_first_that_fits() {
    let mut other_kind = message(1, NOW, None);
    other_kind.kind = MessageKind::Calendar;
    let mut other_series = message(2, NOW, None);
    other_series.kind = MessageKind::Persistent;
    other_series.series = Series::F1;
    let mut other_channel = message(3, NOW, None);
    other_channel.kind = MessageKind::Persistent;
    other_channel.channel = 501;
    let mut expired = message(4, NOW, None);
    expired.kind = MessageKind::Persistent;
    expired.expiry = Some(NOW - 1);
    let mut fits = message(5, NOW, Some(11));
    fits.kind = MessageKind::Persistent;
    fits.expiry = Some(NOW);
    let mut later = message(6, NOW, Some(12));
    later.kind = MessageKind::Persistent;
    let all = vec![other_kind, other_series, other_channel, expired, fits, later];
    let found = fetch_weekend_message_for_series(&all, 500, Series::F2, NOW).expect("one fits");
    assert_eq!(found.id, 5);
    assert_eq!(found.hash, Some(11));
    assert_eq!(found.message, 9005);
    assert_eq!(fetch_weekend_message_for_series(&all, 500, Series::F2, NOW + 1).map(|m| m.id), Some(6));
    assert_eq!(fetch_weekend_message_for_series(&all, 500, Series::F1, NOW).map(|m| m.id), Some(2));
    assert_eq!(fetch_weekend_message_for_series(&all, 501, Series::F2, NOW).map(|m| m.id), Some(3));
    assert!(fetch_weekend_message_for_series(&all, 500, Series::F3, NOW).is_none());
    assert!(fetch_weekend_message_for_series(&Vec::new(), 500, Series::F2, NOW).is_none());
}

#[test]
fn sweep_finds_what_has_expired() {
    let mut a = message(1, NOW, None);
    a.expiry = Some(NOW - 1);
    let mut b = message(2, NOW, None);
    b.expiry = Some(NOW);
    let c = message(3, NOW, None);
    let mut d = message(4, NOW, None);
    d.expiry = Some(i64::MIN);
    let targets = expired_messages(&vec![a, b, c, d], NOW);
    assert_eq!(
        targets,
        vec![
            MessageRef { id: 1, channel: 500, message: 9001 },
            MessageRef { id: 4, channel: 500, message: 9004 },
        ]
    );
    assert!(expired_messages(&Vec::new(), NOW).is_empty());
}

#[test]
fn not_found_counts_as_deleted() {
    let targets = vec![
        MessageRef { id: 1, channel: 500, message: 9001 },
        MessageRef { id: 2, channel: 500, message: 9002 },
        MessageRef { id: 3, channel: 500, message: 9003 },
    ];
    let outcomes = vec![Outcome::NotFound, Outcome::Failed, Outcome::Done];
    assert_eq!(check_expired_messages(&targets, &outcomes), Ok(vec![1, 3]));
    let all_failed = vec![Outcome::Failed, Outcome::Failed, Outcome::Failed];
    assert_eq!(check_expired_messages(&targets, &all_failed), Ok(vec![]));
    assert_eq!(check_expired_messages(&Vec::new(), &Vec::new()), Ok(vec![]));
}

#[test]
fn sweep_refuses_missing_outcomes() {
    let targets = vec![MessageRef { id: 1, channel: 500, message: 9001 }];
    assert_eq!(check_expired_messages(&targets, &Vec::new()), Err(Error::NotSameLen));
}

#[test]
fn expiry_is_the_length_after_posting() {
    assert_eq!(expiry(NOW, 3600), NOW + 3_600_000);
    assert_eq!(expiry(NOW, 1), NOW + 1000);
    assert_eq!(expiry(NOW, 0), NOW);
    assert_eq!(expiry(NOW, -1), NOW + 1_800_000);
    assert_eq!(expiry(NOW, -5), NOW + 1_800_000);
    assert_eq!(expiry(NOW, i64::MIN), NOW + 1_800_000);
    assert_eq!(expiry(i64::MAX, 1), i64::MAX);
    assert_eq!(expiry(0, i64::MAX), i64::MAX);
    assert_eq!(expiry(-10, i64::MAX), i64::MAX - 10);
    assert_eq!(expiry(i64::MIN, 0), i64::MIN);
    assert_eq!(expiry(i64::MAX, 0), i64::MAX);
    assert_eq!(expiry(i64::MIN, -1), i64::MIN + 1_800_000);
    assert_eq!(expiry(i64::MAX, -1), i64::MAX);
}

#[test]
fn notification_and_its_record() {
    let w = weekend(1, NOW, "First");
    let notice = send_notification(&w.weekend, &w.sessions[0], 500, 42);
    assert_eq!(notice.session, 10);
    assert_eq!(notice.channel, 500);
    assert_eq!(
        notice.content,
        format!("<@&42>\n🏎 First Race is starting: <t:{}:R>", (NOW + 1000) / 1000)
    );
    let record = create_new_notifications_msg_db(&w.sessions[0], Series::F2, 500, 777, NOW);
    assert_eq!(record.channel, 500);
    assert_eq!(record.message, 777);
    assert_eq!(record.kind, MessageKind::Notification);
    assert_eq!(record.posted, NOW);
    assert_eq!(record.expiry, Some(NOW + 3_600_000));
    assert_eq!(record.hash, None);
    assert_eq!(record.series, Series::F2);
    let stored = record.stored(31);
    assert_eq!(stored.id, 31);
    assert_eq!(stored.message, 777);
    assert_eq!(stored.expiry, Some(NOW + 3_600_000));
    assert!(!stored.expired(NOW + 3_600_000));
    assert!(stored.expired(NOW + 3_600_001));
}

#[test]
fn notification_of_a_session_without_length_expires_at_once() {
    let mut w = weekend(1, NOW, "First");
    w.sessions[0].duration = 0;
    let record = create_new_notifications_msg_db(&w.sessions[0], Series::F2, 500, 777, NOW);
    assert_eq!(record.posted, NOW);
    assert_eq!(record.expiry, Some(NOW));
    let stored = record.stored(1);
    assert!(!stored.expired(NOW));
    assert!(stored.expired(NOW + 1));
    w.sessions[0].duration = -1;
    let record = create_new_notifications_msg_db(&w.sessions[0], Series::F2, 500, 777, NOW);
    assert_eq!(record.expiry, Some(NOW + 1_800_000));
    w.sessions[0].duration = 90;
    let record = create_new_notifications_msg_db(&w.sessions[0], Series::F2, 500, 777, NOW);
    assert_eq!(record.expiry, Some(NOW + 90_000));
}

#[test]
fn calls_that_need_not_be_made() {
    assert_eq!(without_call(0, 5), Some(Outcome::NotFound));
    assert_eq!(without_call(5, 0), Some(Outcome::NotFound));
    assert_eq!(without_call(0, 0), Some(Outcome::NotFound));
    assert_eq!(without_call(5, 6), None);
    assert_eq!(without_call(u64::MAX, 1), None);
    assert!(!can_send(0));
    assert!(can_send(1));
    assert!(can_send(u64::MAX));
}

#[test]
fn best_weekend_starts_first() {
    let weekends = vec![
        weekend(1, NOW + 500, "B").weekend,
        weekend(2, NOW + 100, "A").weekend,
        weekend(3, NOW + 100, "C").weekend,
    ];
    let best = best_weekend(&weekends).expect("not empty");
    assert_eq!(best.id, 2);
    assert_eq!(best.name, "A");
    assert!(best_weekend(&Vec::new()).is_none());
}

#[test]
fn only_calendar_messages_and_open_weekends_count() {
    let mut done = weekend(1, NOW + 1000, "Done");
    done.weekend.status = WeekendStatus::Done;
    let mut cancelled = weekend(2, NOW + 2000, "Cancelled");
    cancelled.weekend.status = WeekendStatus::Cancelled;
    let mut other = weekend(3, NOW + 3000, "Other series");
    other.weekend.series = Series::F1;
    let weekends = vec![done, weekend(4, NOW + 5000, "Late"), cancelled, other, weekend(5, NOW + 4000, "Early")];

    let mut status = message(1, NOW + 1, None);
    status.kind = MessageKind::Persistent;
    let mut notification = message(2, NOW + 2, None);
    notification.kind = MessageKind::Notification;
    let mut foreign = message(3, NOW + 3, None);
    foreign.series = Series::F1;
    let mut expired = message(4, NOW + 4, None);
    expired.expiry = Some(NOW - 1);
    let messages = vec![status, message(5, NOW + 50, None), notification, foreign, expired];

    let steps = create_calendar(&messages, &weekends, Series::F2, 500, NOW);
    assert_eq!(steps, vec![CalendarStep::Reserve { channel: 500, series: Series::F2 }]);
    assert_eq!(
        edit_calendar(&messages, &weekends, Series::F2, 500, NOW).err(),
        Some(Error::NotSameLen)
    );
    assert_eq!(
        delete_latest_calendar_message(&messages, 500, Series::F2, NOW).map(|m| m.id),
        Some(5)
    );

    let mut messages = messages;
    messages.push(message(6, NOW + 10, None));
    assert!(create_calendar(&messages, &weekends, Series::F2, 500, NOW).is_empty());
    let edits = edit_calendar(&messages, &weekends, Series::F2, 500, NOW).expect("same number");
    assert_eq!(edits.len(), 2);
    assert_eq!(edits[0].id, 6);
    assert!(edits[0].content.starts_with("## 🏎 **Early**"));
    assert_eq!(edits[1].id, 5);
    assert!(edits[1].content.starts_with("## 🏎 **Late**"));

    let f1 = create_calendar(&messages, &weekends, Series::F1, 500, NOW);
    assert!(f1.is_empty());
    let elsewhere = create_calendar(&messages, &weekends, Series::F1, 7, NOW);
    assert_eq!(elsewhere, vec![CalendarStep::Reserve { channel: 7, series: Series::F1 }]);
    let f3 = create_calendar(&messages, &weekends, Series::F3, 7, NOW);
    assert!(f3.is_empty());
}

#[test]
fn calendar_messages_come_in_the_order_of_posting() {
    let mut status = message(1, NOW + 1, None);
    status.kind = MessageKind::Persistent;
    let mut elsewhere = message(2, NOW + 2, None);
    elsewhere.channel = 501;
    let messages = vec![
        message(3, NOW + 30, Some(3)),
        status,
        message(4, NOW + 10, None),
        elsewhere,
        message(5, NOW + 20, None),
        message(6, NOW + 10, None),
    ];
    let found = get_calendar_notifs(&messages, 500, Series::F2, NOW);
    assert_eq!(found.iter().map(|m| m.id).collect::<Vec<i64>>(), vec![4, 6, 5, 3]);
    assert_eq!(found[3].hash, Some(3));
    assert_eq!(found[3].message, 9003);
    let other = get_calendar_notifs(&messages, 501, Series::F2, NOW);
    assert_eq!(other.iter().map(|m| m.id).collect::<Vec<i64>>(), vec![2]);
    assert!(get_calendar_notifs(&messages, 500, Series::F1, NOW).is_empty());
}

#[test]
fn only_a_live_status_message_of_the_series_is_touched() {
    let w = weekend(1, NOW, "First");
    let mut notification = message(1, NOW, None);
    notification.kind = MessageKind::Notification;
    let calendar = message(2, NOW, Some(5));
    let mut foreign = message(3, NOW, Some(5));
    foreign.kind = MessageKind::Persistent;
    foreign.series = Series::F3;
    let mut expired = message(4, NOW, Some(5));
    expired.kind = MessageKind::Persistent;
    expired.expiry = Some(NOW - 1);
    let records = vec![notification, calendar, foreign, expired];
    assert!(matches!(
        create_persistent_message(&records, Some(&w), 500, Series::F2, NOW, Outcome::Done),
        PersistentStep::Post { .. }
    ));
    assert!(matches!(
        create_persistent_message(&records, None, 500, Series::F2, NOW, Outcome::Done),
        PersistentStep::Keep
    ));
    let mut w = w;
    let plan = runner(&mut w, &records, 500, 42, NOW, Outcome::Done);
    assert!(matches!(plan.persistent, PersistentStep::Post { channel: 500, .. }));
}

#[test]
fn messages_of_a_finished_weekend_are_set_to_expire() {
    let mut status = message(1, NOW, Some(5));
    status.kind = MessageKind::Persistent;
    let mut notification = message(2, NOW, None);
    notification.kind = MessageKind::Notification;
    let mut foreign = message(3, NOW, None);
    foreign.series = Series::F1;
    let mut expiring = message(4, NOW, None);
    expiring.expiry = Some(NOW + 100);
    let calendar = message(5, NOW, None);
    let mut unknown = message(6, NOW, None);
    unknown.kind = MessageKind::Unsupported;
    let records = vec![calendar, status, notification, foreign, expiring, unknown];
    assert_eq!(mark_weekend_message_for_series_expired(&records, Series::F2), vec![5, 1]);
    assert_eq!(mark_weekend_message_for_series_expired(&records, Series::F1), vec![3]);
    assert!(mark_weekend_message_for_series_expired(&records, Series::F3).is_empty());
    assert!(mark_weekend_message_for_series_expired(&Vec::new(), Series::F2).is_empty());
}

fn status_record(id: i64, hash: Option<u64>) -> BotMessage {
    let mut m = message(id, NOW, hash);
    m.kind = MessageKind::Persistent;
    m
}

#[test]
fn look_at_the_status_message() {
    let records = vec![message(1, NOW, None), status_record(2, Some(7))];
    let found = get_persistent_message(&records, 500, Series::F2, NOW, Outcome::Done)
        .expect("the look went through")
        .expect("the message is there");
    assert_eq!(found.id, 2);
    assert_eq!(found.message, 9002);
    assert_eq!(found.hash, Some(7));
    assert!(matches!(
        get_persistent_message(&records, 500, Series::F2, NOW, Outcome::NotFound),
        Ok(None)
    ));
    assert!(matches!(
        get_persistent_message(&records, 500, Series::F2, NOW, Outcome::Failed),
        Err(Error::Channel)
    ));
    for seen in [Outcome::Done, Outcome::NotFound, Outcome::Failed] {
        assert!(matches!(get_persistent_message(&records, 500, Series::F1, NOW, seen), Ok(None)));
        assert!(matches!(get_persistent_message(&Vec::new(), 500, Series::F2, NOW, seen), Ok(None)));
    }
}

#[test]
fn status_message_that_is_gone_is_posted_anew() {
    let w = weekend(1, NOW, "First");
    let records = vec![status_record(4, Some(w.fingerprint()))];
    match create_persistent_message(&records, Some(&w), 500, Series::F2, NOW, Outcome::NotFound) {
        PersistentStep::Post { channel, content, hash, stale } => {
            assert_eq!(channel, 500);
            assert_eq!(content, w.weekend_msg_str(false, NOW));
            assert_eq!(hash, w.fingerprint());
            assert_eq!(stale, Some(4));
        },
        other => panic!("unexpected {other:?}"),
    }
    let record = post_new_persistent(&w, 500, 4321, NOW).stored(5);
    assert_eq!(record.message, 4321);
    assert_eq!(record.hash, Some(w.fingerprint()));
    assert!(matches!(
        create_persistent_message(&vec![record], Some(&w), 500, Series::F2, NOW, Outcome::Done),
        PersistentStep::Keep
    ));
    let mut w = w;
    let plan = runner(&mut w, &records, 500, 42, NOW, Outcome::NotFound);
    assert!(matches!(plan.persistent, PersistentStep::Post { stale: Some(4), .. }));
}

#[test]
fn record_of_a_gone_message_is_forgotten_where_nothing_is_to_show() {
    let records = vec![status_record(4, Some(1))];
    assert!(matches!(
        create_persistent_message(&records, None, 500, Series::F2, NOW, Outcome::NotFound),
        PersistentStep::Forget { id: 4 }
    ));
    let mut over = weekend(1, NOW, "First");
    over.sessions[0].status = SessionStatus::Cancelled;
    assert!(matches!(
        create_persistent_message(&records, Some(&over), 500, Series::F2, NOW, Outcome::NotFound),
        PersistentStep::Forget { id: 4 }
    ));
}

#[test]
fn failed_look_leaves_the_status_message_alone() {
    let w = weekend(1, NOW, "First");
    let records = vec![status_record(4, Some(1))];
    assert!(matches!(
        create_persistent_message(&records, Some(&w), 500, Series::F2, NOW, Outcome::Failed),
        PersistentStep::Keep
    ));
    assert!(matches!(
        create_persistent_message(&records, None, 500, Series::F2, NOW, Outcome::Failed),
        PersistentStep::Keep
    ));
    for seen in [Outcome::Done, Outcome::NotFound, Outcome::Failed] {
        assert!(matches!(
            create_persistent_message(&Vec::new(), Some(&w), 500, Series::F2, NOW, seen),
            PersistentStep::Post { stale: None, .. }
        ));
        assert!(matches!(
            create_persistent_message(&Vec::new(), None, 500, Series::F2, NOW, seen),
            PersistentStep::Keep
        ));
    }
}

#[test]
fn posting_step_of_a_weekend() {
    let mut w = weekend(1, NOW, "First");
    w.weekend.series = Series::F1;
    assert!(hints(Series::F1));
    assert!(hints(Series::F1Academy));
    assert!(!hints(Series::F2));
    assert!(!hints(Series::F3));
    assert!(!hints(Series::Unsupported));
    match post_weekend_message(&w, 9, NOW, Some(3)) {
        PersistentStep::Post { channel, content, hash, stale } => {
            assert_eq!(channel, 9);
            assert_eq!(content, w.weekend_msg_str(true, NOW));
            assert_eq!(hash, w.fingerprint());
            assert_eq!(stale, Some(3));
        },
        other => panic!("unexpected {other:?}"),
    }
}
