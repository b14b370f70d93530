//! The calendar of a series: one message for each open weekend, in the
//! order of the weekends' starts.

use vstd::prelude::*;
use crate::error::Error;
use crate::fingerprint::fingerprint_of;
use crate::model::{MessageKind, Series, WeekendStatus};
use crate::notifs::{EditView, MessageEdit, MessageRef};
use crate::order::{lemma_sorted_places_orders, order_of, pick, sorted_places};
use crate::record::{BotMessage, NewMessage};
use crate::render::{calendar_text, schedules};
use crate::schedule::{FullWeekend, Schedule};

verus! {

/// How long to wait after a message was reserved, in milliseconds, so that
/// the messages stand on the channel in the order in which they were sent.
pub const RESERVE_PAUSE_MS: u64 = 300;

/// How long the calendar is left alone after it was brought up to date, in
/// milliseconds.
pub const CALENDAR_PERIOD_MS: i64 = 300_000;

/// One step that brings the number of calendar messages to the number of
/// weekends.
#[derive(Clone, Copy, Debug, PartialEq, Eq, Structural)]
pub enum CalendarStep {
    /// A message with the placeholder text is sent to hold a place, and
    /// recorded; then the channel is left alone for `RESERVE_PAUSE_MS`.
    Reserve { channel: u64, series: Series },
    /// The message is deleted, and its record with it.
    Delete(MessageRef),
}

/// The times at which the messages were posted, in the order given.
pub open spec fn posted_keys(messages: Seq<BotMessage>) -> Seq<i64> {
    Seq::new(messages.len(), |i: int| messages[i].posted)
}

/// The messages in the order in which they were posted.
pub open spec fn by_posted(messages: Seq<BotMessage>) -> Seq<BotMessage> {
    pick(messages, sorted_places(posted_keys(messages)))
}

/// The starts of the weekends, in the order given.
pub open spec fn weekend_keys(weekends: Seq<Schedule>) -> Seq<i64> {
    Seq::new(weekends.len(), |i: int| weekends[i].weekend.start_date)
}

/// The weekends in the order of their start.
pub open spec fn by_weekend_start(weekends: Seq<Schedule>) -> Seq<Schedule> {
    pick(weekends, sorted_places(weekend_keys(weekends)))
}

/// Whether a record is a calendar message of the series in the channel
/// that has not expired at `now`.
pub open spec fn is_calendar_of(m: BotMessage, channel: u64, series: Series, now: i64) -> bool {
    m.kind == MessageKind::Calendar && m.channel == channel && m.series == series
        && !m.is_expired(now)
}

/// The calendar messages of a series in a channel that have not expired at
/// `now`, in the order given.
pub open spec fn calendar_messages(
    messages: Seq<BotMessage>,
    channel: u64,
    series: Series,
    now: i64,
) -> Seq<BotMessage> {
    messages.filter(|m: BotMessage| is_calendar_of(m, channel, series, now))
}

/// The open weekends of a series, in the order given.
pub open spec fn open_weekends(weekends: Seq<FullWeekend>, series: Series) -> Seq<FullWeekend> {
    weekends.filter(
        |w: FullWeekend| w.weekend.status == WeekendStatus::Open && w.weekend.series == series,
    )
}

/// The steps that bring the number of calendar messages to the number of
/// weekends: where messages are missing, one is reserved for each; where
/// there are too many, the latest are deleted, the last one first.
pub open spec fn calendar_steps(
    messages: Seq<BotMessage>,
    weekends: nat,
    series: Series,
    channel: u64,
) -> Seq<CalendarStep> {
    if messages.len() <= weekends {
        Seq::new(
            (weekends - messages.len()) as nat,
            |i: int| CalendarStep::Reserve { channel, series },
        )
    } else {
        Seq::new(
            (messages.len() - weekends) as nat,
            |i: int| CalendarStep::Delete(by_posted(messages)[messages.len() - 1 - i].target()),
        )
    }
}

/// The calendar messages of a series in a channel that have not expired
/// at `now`.
fn select_calendar(messages: &Vec<BotMessage>, channel: u64, series: Series, now: i64) -> (r: Vec<
    BotMessage,
>)
    ensures
        r@ == calendar_messages(messages@, channel, series, now),
{
    let mut out: Vec<BotMessage> = Vec::new();
    let mut i: usize = 0;
    let ghost wanted = |m: BotMessage| is_calendar_of(m, channel, series, now);
    assert(messages@.take(0) =~= Seq::<BotMessage>::empty());
    while i < messages.len()
        invariant
            i <= messages.len(),
            wanted == |m: BotMessage| is_calendar_of(m, channel, series, now),
            out@ == messages@.take(i as int).filter(wanted),
        decreases messages.len() - i,
    {
        proof {
            let prefix = messages@.take(i as int);
            let next = messages@.take(i + 1);
            assert(next =~= prefix.push(messages@[i as int]));
            assert(next.drop_last() =~= prefix);
            reveal(Seq::filter);
        }
        let m = &messages[i];
        if m.kind == MessageKind::Calendar && m.channel == channel && m.series == series
            && !m.expired(now) {
            out.push(m.copy());
        }
        i += 1;
    }
    assert(messages@.take(i as int) =~= messages@);
    out
}

/// The calendar messages of a series in a channel that have not expired at
/// `now`, in the order in which they were posted.
pub fn get_calendar_notifs(
    messages: &Vec<BotMessage>,
    channel: u64,
    series: Series,
    now: i64,
) -> (r: Vec<BotMessage>)
    ensures
        r@ == by_posted(calendar_messages(messages@, channel, series, now)),
        r@.len() == calendar_messages(messages@, channel, series, now).len(),
{
    let chosen = select_calendar(messages, channel, series, now);
    let order = posted_order(&chosen);
    let mut out: Vec<BotMessage> = Vec::new();
    let mut i: usize = 0;
    while i < order.len()
        invariant
            i <= order@.len(),
            order@.len() == chosen@.len(),
            forall|j: int| 0 <= j < order@.len() ==> (#[trigger] order@[j]) < chosen@.len(),
            out@.len() == i,
            forall|j: int| 0 <= j < i ==> (#[trigger] out@[j]) == chosen@[order@[j] as int],
        decreases order.len() - i,
    {
        out.push(chosen[order[i]].copy());
        i += 1;
    }
    assert(out@ =~= pick(chosen@, order@));
    out
}

/// The places of the open weekends of a series.
fn select_open(weekends: &Vec<FullWeekend>, series: Series) -> (r: Vec<usize>)
    ensures
        pick(weekends@, r@) == open_weekends(weekends@, series),
        forall|j: int| 0 <= j < r@.len() ==> (#[trigger] r@[j]) < weekends@.len(),
{
    let mut out: Vec<usize> = Vec::new();
    let mut i: usize = 0;
    let ghost wanted = |w: FullWeekend|
        w.weekend.status == WeekendStatus::Open && w.weekend.series == series;
    assert(weekends@.take(0) =~= Seq::<FullWeekend>::empty());
    assert(pick(weekends@, out@) =~= weekends@.take(0).filter(wanted));
    while i < weekends.len()
        invariant
            i <= weekends.len(),
            wanted == |w: FullWeekend|
                w.weekend.status == WeekendStatus::Open && w.weekend.series == series,
            forall|j: int| 0 <= j < out@.len() ==> (#[trigger] out@[j]) < i,
            pick(weekends@, out@) == weekends@.take(i as int).filter(wanted),
        decreases weekends.len() - i,
    {
        proof {
            let prefix = weekends@.take(i as int);
            let next = weekends@.take(i + 1);
            assert(next =~= prefix.push(weekends@[i as int]));
            assert(next.drop_last() =~= prefix);
            reveal(Seq::filter);
        }
        let ghost before = out@;
        if weekends[i].weekend.status == WeekendStatus::Open && weekends[i].weekend.series
            == series {
            out.push(i);
            assert(pick(weekends@, out@) =~= pick(weekends@, before).push(weekends@[i as int]));
        }
        i += 1;
    }
    assert(weekends@.take(i as int) =~= weekends@);
    out
}

/// The places of the messages in the order in which they were posted.
fn posted_order(messages: &Vec<BotMessage>) -> (order: Vec<usize>)
    ensures
        order@ == sorted_places(posted_keys(messages@)),
        order@.len() == messages@.len(),
        forall|j: int| 0 <= j < order@.len() ==> (#[trigger] order@[j]) < messages@.len(),
{
    let mut keys: Vec<i64> = Vec::new();
    let mut i: usize = 0;
    while i < messages.len()
        invariant
            i <= messages.len(),
            keys@.len() == i,
            forall|j: int| 0 <= j < i ==> (#[trigger] keys@[j]) == messages@[j].posted,
        decreases messages.len() - i,
    {
        keys.push(messages[i].posted);
        i += 1;
    }
    assert(keys@ =~= posted_keys(messages@));
    order_of(&keys)
}

/// The places, among the chosen weekends, of the weekends in the order of
/// their start.
fn weekend_order(weekends: &Vec<FullWeekend>, chosen: &Vec<usize>) -> (order: Vec<usize>)
    requires
        forall|j: int| 0 <= j < chosen@.len() ==> (#[trigger] chosen@[j]) < weekends@.len(),
    ensures
        order@ == sorted_places(weekend_keys(schedules(pick(weekends@, chosen@)))),
        order@.len() == chosen@.len(),
        forall|j: int| 0 <= j < order@.len() ==> (#[trigger] order@[j]) < chosen@.len(),
{
    let mut keys: Vec<i64> = Vec::new();
    let mut i: usize = 0;
    while i < chosen.len()
        invariant
            i <= chosen.len(),
            keys@.len() == i,
            forall|j: int| 0 <= j < chosen@.len() ==> (#[trigger] chosen@[j]) < weekends@.len(),
            forall|j: int|
                0 <= j < i ==> (#[trigger] keys@[j])
                    == weekends@[chosen@[j] as int].weekend.start_date,
        decreases chosen.len() - i,
    {
        keys.push(weekends[chosen[i]].weekend.start_date);
        i += 1;
    }
    assert(keys@ =~= weekend_keys(schedules(pick(weekends@, chosen@))));
    order_of(&keys)
}

/// The steps that bring the number of a series' calendar messages to the
/// number of its open weekends. Of the records only the calendar messages of
/// the series in the channel that have not expired count, of the weekends
/// only the open ones of the series.
pub fn create_calendar(
    messages: &Vec<BotMessage>,
    weekends: &Vec<FullWeekend>,
    series: Series,
    channel: u64,
    now: i64,
) -> (r: Vec<CalendarStep>)
    ensures
        r@ == calendar_steps(
            calendar_messages(messages@, channel, series, now),
            open_weekends(weekends@, series).len(),
            series,
            channel,
        ),
        calendar_messages(messages@, channel, series, now).len() <= open_weekends(
            weekends@,
            series,
        ).len() ==> r@.len() == open_weekends(weekends@, series).len() - calendar_messages(
            messages@,
            channel,
            series,
            now,
        ).len() && forall|i: int|
            0 <= i < r@.len() ==> (#[trigger] r@[i]) == (CalendarStep::Reserve { channel, series }),
        calendar_messages(messages@, channel, series, now).len() > open_weekends(
            weekends@,
            series,
        ).len() ==> r@.len() == calendar_messages(messages@, channel, series, now).len()
            - open_weekends(weekends@, series).len() && forall|i: int|
            0 <= i < r@.len() ==> (#[trigger] r@[i]) is Delete,
{
    let posted = get_calendar_notifs(messages, channel, series, now);
    let open = select_open(weekends, series);
    let mut steps: Vec<CalendarStep> = Vec::new();
    let have: usize = posted.len();
    let want: usize = open.len();
    assert(want == open_weekends(weekends@, series).len());
    if have <= want {
        let mut i: usize = have;
        while i < want
            invariant
                have <= i <= want,
                steps@.len() == i - have,
                forall|j: int|
                    0 <= j < steps@.len() ==> (#[trigger] steps@[j]) == (CalendarStep::Reserve {
                        channel,
                        series,
                    }),
            decreases want - i,
        {
            steps.push(CalendarStep::Reserve { channel, series });
            i += 1;
        }
    } else {
        let mut i: usize = have;
        while i > want
            invariant
                want <= i <= have,
                have == posted@.len(),
                steps@.len() == have - i,
                forall|j: int|
                    0 <= j < steps@.len() ==> (#[trigger] steps@[j]) == CalendarStep::Delete(
                        posted@[have - 1 - j].target(),
                    ),
            decreases i,
        {
            i -= 1;
            steps.push(CalendarStep::Delete(posted[i].to_ref()));
        }
    }
    assert(steps@ =~= calendar_steps(
        calendar_messages(messages@, channel, series, now),
        want as nat,
        series,
        channel,
    ));
    steps
}

/// The record of a calendar message that was reserved under the handle
/// `message` at `now`. It carries no fingerprint, so that the first pass
/// over it writes its weekend.
pub fn reserve_calendar_message(channel: u64, series: Series, message: u64, now: i64) -> (r:
    NewMessage)
    ensures
        r == (NewMessage {
            channel,
            message,
            kind: MessageKind::Calendar,
            posted: now,
            expiry: None,
            hash: None,
            series,
        }),
{
    NewMessage {
        channel,
        message,
        kind: MessageKind::Calendar,
        posted: now,
        expiry: None,
        hash: None,
        series,
    }
}

/// The edit that brings a calendar message up to date with its weekend:
/// none where the message carries the weekend's fingerprint.
pub open spec fn calendar_edit(m: BotMessage, w: Schedule) -> Option<EditView> {
    if m.hash == Some(fingerprint_of(w)) {
        None
    } else {
        Some(
            EditView {
                id: m.id,
                channel: m.channel,
                message: m.message,
                content: calendar_text(w),
                hash: fingerprint_of(w),
            },
        )
    }
}

/// The edits that bring the first `n` messages up to date, each with the
/// weekend in its place.
pub open spec fn edits_upto(messages: Seq<BotMessage>, weekends: Seq<Schedule>, n: nat) -> Seq<
    EditView,
>
    decreases n,
{
    if n == 0 {
        Seq::empty()
    } else {
        let rest = edits_upto(messages, weekends, (n - 1) as nat);
        match calendar_edit(messages[n - 1], weekends[n - 1]) {
            Some(e) => rest.push(e),
            None => rest,
        }
    }
}

/// The edits that bring the calendar up to date: the messages in the order
/// in which they were posted stand for the weekends in the order of their
/// start.
pub open spec fn calendar_edits(messages: Seq<BotMessage>, weekends: Seq<Schedule>) -> Seq<
    EditView,
> {
    edits_upto(by_posted(messages), by_weekend_start(weekends), messages.len())
}

/// The views of a list of edits.
pub open spec fn edit_views(edits: Seq<MessageEdit>) -> Seq<EditView> {
    Seq::new(edits.len(), |i: int| edits[i]@)
}

/// The edits that bring a series' calendar up to date. Of the records only
/// the calendar messages of the series in the channel that have not expired
/// count, of the weekends only the open ones of the series. Fails where the
/// number of those messages is not that of those weekends.
pub fn edit_calendar(
    messages: &Vec<BotMessage>,
    weekends: &Vec<FullWeekend>,
    series: Series,
    channel: u64,
    now: i64,
) -> (r: Result<Vec<MessageEdit>, Error>)
    ensures
        calendar_messages(messages@, channel, series, now).len() != open_weekends(
            weekends@,
            series,
        ).len() ==> r is Err && r->Err_0 == Error::NotSameLen,
        calendar_messages(messages@, channel, series, now).len() == open_weekends(
            weekends@,
            series,
        ).len() ==> r is Ok && edit_views(r->Ok_0@) == calendar_edits(
            calendar_messages(messages@, channel, series, now),
            schedules(open_weekends(weekends@, series)),
        ),
{
    let posted = get_calendar_notifs(messages, channel, series, now);
    let open = select_open(weekends, series);
    assert(open@.len() == open_weekends(weekends@, series).len());
    if posted.len() != open.len() {
        return Err(Error::NotSameLen);
    }
    let by_start = weekend_order(weekends, &open);
    let ghost ws = by_weekend_start(schedules(open_weekends(weekends@, series)));
    let mut edits: Vec<MessageEdit> = Vec::new();
    let mut i: usize = 0;
    assert(edit_views(edits@) =~= edits_upto(posted@, ws, 0));
    while i < posted.len()
        invariant
            i <= posted.len(),
            posted@.len() == open@.len(),
            pick(weekends@, open@) == open_weekends(weekends@, series),
            forall|j: int| 0 <= j < open@.len() ==> (#[trigger] open@[j]) < weekends@.len(),
            by_start@ == sorted_places(
                weekend_keys(schedules(open_weekends(weekends@, series))),
            ),
            by_start@.len() == open@.len(),
            forall|j: int| 0 <= j < by_start@.len() ==> (#[trigger] by_start@[j]) < open@.len(),
            ws == by_weekend_start(schedules(open_weekends(weekends@, series))),
            edit_views(edits@) == edits_upto(posted@, ws, i as nat),
        decreases posted.len() - i,
    {
        let m = &posted[i];
        let w = &weekends[open[by_start[i]]];
        assert(w@ == ws[i as int]) by {
            let k = by_start@[i as int] as int;
            assert(pick(weekends@, open@)[k] == weekends@[open@[k] as int]);
        }
        let hash: u64 = w.fingerprint();
        let same: bool = match m.hash {
            Some(h) => h == hash,
            None => false,
        };
        let ghost before = edits@;
        if !same {
            edits.push(
                MessageEdit {
                    id: m.id,
                    channel: m.channel,
                    message: m.message,
                    content: w.calendar_str(),
                    hash,
                },
            );
            assert(edit_views(edits@) =~= edit_views(before).push(
                calendar_edit(posted@[i as int], ws[i as int]).unwrap(),
            ));
        }
        i += 1;
    }
    Ok(edits)
}

/// The latest of a series' calendar messages in a channel that have not
/// expired at `now`, if there is one.
pub fn delete_latest_calendar_message(
    messages: &Vec<BotMessage>,
    channel: u64,
    series: Series,
    now: i64,
) -> (r: Option<MessageRef>)
    ensures
        r == (if calendar_messages(messages@, channel, series, now).len() == 0 {
            None::<MessageRef>
        } else {
            Some(by_posted(calendar_messages(messages@, channel, series, now)).last().target())
        }),
{
    let posted = get_calendar_notifs(messages, channel, series, now);
    if posted.len() == 0 {
        return None;
    }
    Some(posted[posted.len() - 1].to_ref())
}

/// Whether the calendar is to be brought up to date at `now`: it never
/// was, or the last time lies at least `CALENDAR_PERIOD_MS` back.
pub open spec fn calendar_is_due(last: Option<i64>, now: i64) -> bool {
    match last {
        None => true,
        Some(at) => now - at >= CALENDAR_PERIOD_MS,
    }
}

/// Whether the calendar is to be brought up to date at `now`.
pub fn calendar_due(last: Option<i64>, now: i64) -> (r: bool)
    ensures
        r == calendar_is_due(last, now),
{
    match last {
        None => true,
        Some(at) => match now.checked_sub(at) {
            Some(gap) => gap >= CALENDAR_PERIOD_MS,
            None => now > at,
        },
    }
}

/// A calendar whose messages carry the fingerprints of their weekends asks
/// for no edit among its first `n` messages.
proof fn lemma_no_edits_upto(messages: Seq<BotMessage>, weekends: Seq<Schedule>, n: nat)
    requires
        n <= messages.len(),
        n <= weekends.len(),
        forall|i: int|
            0 <= i < n ==> (#[trigger] messages[i]).hash == Some(fingerprint_of(weekends[i])),
    ensures
        edits_upto(messages, weekends, n) == Seq::<EditView>::empty(),
    decreases n,
{
    if n > 0 {
        lemma_no_edits_upto(messages, weekends, (n - 1) as nat);
    }
}

/// A calendar that is up to date is left alone: where each message, taken
/// in the order of posting, carries the fingerprint of the weekend in its
/// place, taken in the order of the starts, no edit is asked for.
pub proof fn lemma_unchanged_calendar_is_kept(messages: Seq<BotMessage>, weekends: Seq<Schedule>)
    requires
        messages.len() == weekends.len(),
        messages.len() <= usize::MAX,
        forall|i: int|
            0 <= i < messages.len() ==> (#[trigger] by_posted(messages)[i]).hash == Some(
                fingerprint_of(by_weekend_start(weekends)[i]),
            ),
    ensures
        calendar_edits(messages, weekends) == Seq::<EditView>::empty(),
{
    lemma_sorted_places_orders(posted_keys(messages));
    lemma_sorted_places_orders(weekend_keys(weekends));
    lemma_no_edits_upto(by_posted(messages), by_weekend_start(weekends), messages.len());
}

} // verus!
