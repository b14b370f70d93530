//! The status message of the next weekend, the announcements of sessions
//! and the sweep of what has expired: what is to be sent, and what a
//! call's outcome means for the records.

use vstd::prelude::*;
use crate::error::Error;
use crate::fingerprint::fingerprint_of;
use crate::model::{MessageKind, Series, WeekendStatus};
use crate::record::{BotMessage, NewMessage, Session, Weekend};
use crate::render::{notification_str, notification_text, status_text};
use crate::schedule::{lemma_leads_to_chain, FullWeekend, Schedule};

verus! {

/// How long an announcement stays where its session's length is unknown,
/// that is below zero, in milliseconds.
pub const FALLBACK_EXPIRY_MS: i64 = 1_800_000;

/// How a call to the channel ended.
#[derive(Clone, Copy, Debug, PartialEq, Eq, Structural)]
pub enum Outcome {
    /// The call went through.
    Done,
    /// The message that the call names is not there.
    NotFound,
    /// The call failed for another reason and may be tried again.
    Failed,
}

impl Outcome {
    /// The outcome that a failed call's status stands for: 404 says that
    /// the message is not there.
    pub open spec fn of(status: Option<u16>) -> Outcome {
        if status == Some(404u16) {
            Outcome::NotFound
        } else {
            Outcome::Failed
        }
    }

    /// Whether the message is off the channel after a call to delete it.
    pub open spec fn gone(self) -> bool {
        self == Outcome::Done || self == Outcome::NotFound
    }

    /// The outcome that a failed call's status stands for.
    pub fn of_status(status: Option<u16>) -> (r: Outcome)
        ensures
            r == Outcome::of(status),
    {
        match status {
            Some(code) => if code == 404 {
                Outcome::NotFound
            } else {
                Outcome::Failed
            },
            None => Outcome::Failed,
        }
    }
}

/// Whether a message can stand at a place: no channel and no message has
/// the handle zero.
pub open spec fn can_stand(channel: u64, message: u64) -> bool {
    channel != 0 && message != 0
}

/// How a call for a message ends that need not be made: a message that
/// cannot stand at its place is not there. Nothing where the call is to be
/// made.
pub fn without_call(channel: u64, message: u64) -> (r: Option<Outcome>)
    ensures
        r == (if can_stand(channel, message) {
            None::<Outcome>
        } else {
            Some(Outcome::NotFound)
        }),
{
    if channel == 0 || message == 0 {
        Some(Outcome::NotFound)
    } else {
        None
    }
}

/// Whether a message can be sent to a channel: no channel has the handle
/// zero.
pub fn can_send(channel: u64) -> (r: bool)
    ensures
        r == (channel != 0),
{
    channel != 0
}

/// A posted message by its record and its place on the channel.
#[derive(Clone, Copy, Debug, PartialEq, Eq, Structural)]
pub struct MessageRef {
    pub id: i64,
    pub channel: u64,
    pub message: u64,
}

impl BotMessage {
    /// The message by its record and its place on the channel.
    pub open spec fn target(self) -> MessageRef {
        MessageRef { id: self.id, channel: self.channel, message: self.message }
    }

    /// The message by its record and its place on the channel.
    pub fn to_ref(&self) -> (r: MessageRef)
        ensures
            r == self.target(),
    {
        MessageRef { id: self.id, channel: self.channel, message: self.message }
    }
}

/// What a call's outcome means for the record of the message.
#[derive(Clone, Copy, Debug, PartialEq, Eq, Structural)]
pub enum Settle {
    /// The record stays as it is; the call is tried again in a later pass.
    Keep,
    /// The record is deleted.
    Forget { id: i64 },
    /// The record takes the fingerprint of what was posted.
    StoreHash { id: i64, hash: u64 },
}

/// A message to edit, with the fingerprint of its new content.
#[derive(Debug)]
pub struct MessageEdit {
    pub id: i64,
    pub channel: u64,
    pub message: u64,
    pub content: String,
    pub hash: u64,
}

/// What a `MessageEdit` holds.
pub struct EditView {
    pub id: i64,
    pub channel: u64,
    pub message: u64,
    pub content: Seq<char>,
    pub hash: u64,
}

impl View for MessageEdit {
    type V = EditView;

    open spec fn view(&self) -> EditView {
        EditView {
            id: self.id,
            channel: self.channel,
            message: self.message,
            content: self.content@,
            hash: self.hash,
        }
    }
}

/// What is to be done about the status message.
#[derive(Debug)]
pub enum PersistentStep {
    /// Nothing: there is nothing to show, what is shown is up to date, or
    /// the look at the posted message failed and is made again in the next
    /// pass.
    Keep,
    /// A new message is posted and recorded with its fingerprint. Where the
    /// message of an earlier record is gone, that record is deleted first.
    Post { channel: u64, content: String, hash: u64, stale: Option<i64> },
    /// The posted message is edited.
    Edit(MessageEdit),
    /// The posted message is deleted, and its record with it.
    Remove(MessageRef),
    /// The record of a message that is gone is deleted.
    Forget { id: i64 },
}

/// What a `PersistentStep` holds.
pub enum PersistentView {
    Keep,
    Post { channel: u64, content: Seq<char>, hash: u64, stale: Option<i64> },
    Edit(EditView),
    Remove(MessageRef),
    Forget { id: i64 },
}

impl View for PersistentStep {
    type V = PersistentView;

    open spec fn view(&self) -> PersistentView {
        match self {
            PersistentStep::Keep => PersistentView::Keep,
            PersistentStep::Post { channel, content, hash, stale } => PersistentView::Post {
                channel: *channel,
                content: content@,
                hash: *hash,
                stale: *stale,
            },
            PersistentStep::Edit(e) => PersistentView::Edit(e@),
            PersistentStep::Remove(m) => PersistentView::Remove(*m),
            PersistentStep::Forget { id } => PersistentView::Forget { id: *id },
        }
    }
}

/// Whether the status message of a series tells readers how to subscribe.
pub open spec fn wants_hint(series: Series) -> bool {
    series == Series::F1 || series == Series::F1Academy
}

/// Whether there is a weekend to show: one that is not over.
pub open spec fn to_show(weekend: Option<Schedule>) -> bool {
    weekend.is_some() && !weekend.unwrap().terminal()
}

/// The step that posts the status message of a weekend anew.
pub open spec fn post_step(
    w: Schedule,
    channel: u64,
    now: i64,
    stale: Option<i64>,
) -> PersistentView {
    PersistentView::Post {
        channel,
        content: status_text(w, wants_hint(w.weekend.series), now),
        hash: fingerprint_of(w),
        stale,
    }
}

/// What is to be done about the status message of a series, given its
/// record, if there is one, and how the look at the posted message ended.
///
/// Without a record a message is posted where there is a weekend to show.
/// With a record whose message is not there, the record is stale: where
/// there is a weekend to show a message is posted anew and the record
/// deleted, else the record alone is deleted. Where the look failed nothing
/// is done in this pass. With a record whose message is there: where there
/// is no weekend to show the message is removed; a message whose
/// fingerprint is that of the weekend is left alone; any other is edited.
pub open spec fn persistent_step(
    existing: Option<BotMessage>,
    seen: Outcome,
    weekend: Option<Schedule>,
    channel: u64,
    now: i64,
) -> PersistentView {
    match existing {
        None => if to_show(weekend) {
            post_step(weekend.unwrap(), channel, now, None)
        } else {
            PersistentView::Keep
        },
        Some(m) => match seen {
            Outcome::Failed => PersistentView::Keep,
            Outcome::NotFound => if to_show(weekend) {
                post_step(weekend.unwrap(), channel, now, Some(m.id))
            } else {
                PersistentView::Forget { id: m.id }
            },
            Outcome::Done => if !to_show(weekend) {
                PersistentView::Remove(m.target())
            } else if m.hash == Some(fingerprint_of(weekend.unwrap())) {
                PersistentView::Keep
            } else {
                PersistentView::Edit(
                    EditView {
                        id: m.id,
                        channel: m.channel,
                        message: m.message,
                        content: status_text(
                            weekend.unwrap(),
                            wants_hint(weekend.unwrap().weekend.series),
                            now,
                        ),
                        hash: fingerprint_of(weekend.unwrap()),
                    },
                )
            },
        },
    }
}

/// Whether the status message is up to date: its message is there, there is
/// a weekend to show, and the record carries the weekend's fingerprint.
pub open spec fn up_to_date(
    existing: Option<BotMessage>,
    seen: Outcome,
    weekend: Option<Schedule>,
) -> bool {
    existing.is_some() && seen == Outcome::Done && to_show(weekend) && existing.unwrap().hash
        == Some(fingerprint_of(weekend.unwrap()))
}

/// A status message that is up to date is left alone, at whatever time the
/// pass runs: nothing is posted, edited or removed.
pub proof fn lemma_up_to_date_is_kept(
    existing: Option<BotMessage>,
    seen: Outcome,
    weekend: Option<Schedule>,
    channel: u64,
    now: i64,
)
    requires
        up_to_date(existing, seen, weekend),
    ensures
        persistent_step(existing, seen, weekend, channel, now) == PersistentView::Keep,
{
}

/// Where there is a weekend to show and no message stands for it, because
/// none was recorded or because the recorded one is gone, one is posted with
/// the weekend's fingerprint, and a stale record is deleted.
pub proof fn lemma_missing_message_is_posted(
    existing: Option<BotMessage>,
    seen: Outcome,
    weekend: Option<Schedule>,
    channel: u64,
    now: i64,
)
    requires
        to_show(weekend),
        existing.is_none() || seen == Outcome::NotFound,
    ensures
        persistent_step(existing, seen, weekend, channel, now) == post_step(
            weekend.unwrap(),
            channel,
            now,
            match existing {
                Some(m) => Some(m.id),
                None => None,
            },
        ),
{
}

/// The schedule behind a reference, if there is one.
pub open spec fn schedule_of(weekend: Option<&FullWeekend>) -> Option<Schedule> {
    match weekend {
        Some(w) => Some(w@),
        None => None,
    }
}

/// What is to be done about the status message of a series in a channel,
/// given the records, the weekend to show, if there is one, and how the look
/// at the posted message of the status record ended. Of the records the
/// first live status message of the series in the channel counts; where
/// there is none, no look was made and `seen` plays no part.
pub fn create_persistent_message(
    messages: &Vec<BotMessage>,
    weekend: Option<&FullWeekend>,
    channel: u64,
    series: Series,
    now: i64,
    seen: Outcome,
) -> (r: PersistentStep)
    ensures
        r@ == persistent_step(
            persistent_of(messages@, channel, series, now),
            seen,
            schedule_of(weekend),
            channel,
            now,
        ),
        r is Post <==> to_show(schedule_of(weekend)) && (persistent_of(
            messages@,
            channel,
            series,
            now,
        ).is_none() || seen == Outcome::NotFound),
        persistent_of(messages@, channel, series, now).is_none() ==> !(r is Edit) && !(r
            is Remove) && !(r is Forget),
        up_to_date(persistent_of(messages@, channel, series, now), seen, schedule_of(weekend))
            ==> r is Keep,
{
    let existing = fetch_weekend_message_for_series(messages, channel, series, now);
    let live: bool = match weekend {
        Some(w) => !w.is_done(),
        None => false,
    };
    let m: BotMessage = match existing {
        Some(m) => m,
        None => {
            return if live {
                post_weekend_message(weekend.unwrap(), channel, now, None)
            } else {
                PersistentStep::Keep
            };
        },
    };
    match seen {
        Outcome::Failed => PersistentStep::Keep,
        Outcome::NotFound => {
            if live {
                post_weekend_message(weekend.unwrap(), channel, now, Some(m.id))
            } else {
                PersistentStep::Forget { id: m.id }
            }
        },
        Outcome::Done => {
            if !live {
                return PersistentStep::Remove(m.to_ref());
            }
            let w: &FullWeekend = weekend.unwrap();
            let hash: u64 = w.fingerprint();
            let same: bool = match m.hash {
                Some(h) => h == hash,
                None => false,
            };
            if same {
                PersistentStep::Keep
            } else {
                PersistentStep::Edit(
                    MessageEdit {
                        id: m.id,
                        channel: m.channel,
                        message: m.message,
                        content: w.weekend_msg_str(hints(w.weekend.series), now),
                        hash,
                    },
                )
            }
        },
    }
}

/// Whether the status message of a series tells readers how to subscribe.
pub fn hints(series: Series) -> (r: bool)
    ensures
        r == wants_hint(series),
{
    match series {
        Series::F1 => true,
        Series::F1Academy => true,
        _ => false,
    }
}

/// The step that posts the status message of a weekend anew, and deletes
/// the record `stale` of a message that is gone.
pub fn post_weekend_message(
    weekend: &FullWeekend,
    channel: u64,
    now: i64,
    stale: Option<i64>,
) -> (r: PersistentStep)
    ensures
        r@ == post_step(weekend@, channel, now, stale),
{
    PersistentStep::Post {
        channel,
        content: weekend.weekend_msg_str(hints(weekend.weekend.series), now),
        hash: weekend.fingerprint(),
        stale,
    }
}

/// The record of a status message that was posted under the handle
/// `message` at `now`.
pub fn post_new_persistent(weekend: &FullWeekend, channel: u64, message: u64, now: i64) -> (r:
    NewMessage)
    ensures
        r == (NewMessage {
            channel,
            message,
            kind: MessageKind::Persistent,
            posted: now,
            expiry: None,
            hash: Some(fingerprint_of(weekend@)),
            series: weekend.weekend.series,
        }),
{
    NewMessage {
        channel,
        message,
        kind: MessageKind::Persistent,
        posted: now,
        expiry: None,
        hash: Some(weekend.fingerprint()),
        series: weekend.weekend.series,
    }
}

/// Whether a record is the status message of a series in a channel that
/// has not expired at `now`.
pub open spec fn is_persistent_of(m: BotMessage, channel: u64, series: Series, now: i64) -> bool {
    m.kind == MessageKind::Persistent && m.channel == channel && m.series == series
        && !m.is_expired(now)
}

/// The record of the status message of a series in a channel: the first
/// among the records that is one and has not expired at `now`.
pub open spec fn persistent_of(
    messages: Seq<BotMessage>,
    channel: u64,
    series: Series,
    now: i64,
) -> Option<BotMessage>
    decreases messages.len(),
{
    if messages.len() == 0 {
        None
    } else if is_persistent_of(messages[0], channel, series, now) {
        Some(messages[0])
    } else {
        persistent_of(messages.drop_first(), channel, series, now)
    }
}

/// The status message is one of the records, a live status message of the
/// series in the channel, and none stands before it; where there is none,
/// no record is one.
pub proof fn lemma_persistent_of_is_first(
    messages: Seq<BotMessage>,
    channel: u64,
    series: Series,
    now: i64,
)
    ensures
        match persistent_of(messages, channel, series, now) {
            Some(m) => exists|k: int|
                0 <= k < messages.len() && m == messages[k] && is_persistent_of(
                    messages[k],
                    channel,
                    series,
                    now,
                ) && forall|j: int|
                    0 <= j < k ==> !is_persistent_of(#[trigger] messages[j], channel, series, now),
            None => forall|j: int|
                0 <= j < messages.len() ==> !is_persistent_of(
                    #[trigger] messages[j],
                    channel,
                    series,
                    now,
                ),
        },
    decreases messages.len(),
{
    if messages.len() > 0 && !is_persistent_of(messages[0], channel, series, now) {
        let rest = messages.drop_first();
        lemma_persistent_of_is_first(rest, channel, series, now);
        match persistent_of(rest, channel, series, now) {
            Some(m) => {
                let k = choose|k: int|
                    0 <= k < rest.len() && m == rest[k] && is_persistent_of(
                        rest[k],
                        channel,
                        series,
                        now,
                    ) && forall|j: int|
                        0 <= j < k ==> !is_persistent_of(#[trigger] rest[j], channel, series, now);
                assert(messages[k + 1] == rest[k]);
                assert forall|j: int| 0 <= j < k + 1 implies !is_persistent_of(
                    #[trigger] messages[j],
                    channel,
                    series,
                    now,
                ) by {
                    if j > 0 {
                        assert(messages[j] == rest[j - 1]);
                    }
                }
            },
            None => {
                assert forall|j: int| 0 <= j < messages.len() implies !is_persistent_of(
                    #[trigger] messages[j],
                    channel,
                    series,
                    now,
                ) by {
                    if j > 0 {
                        assert(messages[j] == rest[j - 1]);
                    }
                }
            },
        }
    } else if messages.len() > 0 {
        assert(messages[0] == messages[0]);
    }
}

/// The record of the status message of a series in a channel at `now`,
/// as the records have it.
pub fn fetch_weekend_message_for_series(
    messages: &Vec<BotMessage>,
    channel: u64,
    series: Series,
    now: i64,
) -> (r: Option<BotMessage>)
    ensures
        r == persistent_of(messages@, channel, series, now),
{
    let mut i: usize = 0;
    assert(messages@.skip(0) =~= messages@);
    while i < messages.len()
        invariant
            i <= messages.len(),
            persistent_of(messages@, channel, series, now) == persistent_of(
                messages@.skip(i as int),
                channel,
                series,
                now,
            ),
        decreases messages.len() - i,
    {
        let m = &messages[i];
        assert(messages@.skip(i as int)[0] == *m);
        if m.kind == MessageKind::Persistent && m.channel == channel && m.series == series
            && !m.expired(now) {
            return Some(m.copy());
        }
        assert(messages@.skip(i as int).drop_first() =~= messages@.skip(i + 1));
        i += 1;
    }
    None
}

/// The status message that stands on the channel, given its record and how
/// the look at the posted message ended: the record where the message is
/// there; none where there is no record, in which case no look was made, or
/// where the message is not there, so that it is posted anew; an error where
/// the look failed for another reason.
pub open spec fn seen_record(existing: Option<BotMessage>, seen: Outcome) -> Result<
    Option<BotMessage>,
    Error,
> {
    match existing {
        None => Ok(None),
        Some(m) => match seen {
            Outcome::Done => Ok(Some(m)),
            Outcome::NotFound => Ok(None),
            Outcome::Failed => Err(Error::Channel),
        },
    }
}

/// The status message of a series in a channel that stands on the channel
/// at `now`, given the records and how the look at the posted message of
/// the status record ended.
pub fn get_persistent_message(
    messages: &Vec<BotMessage>,
    channel: u64,
    series: Series,
    now: i64,
    seen: Outcome,
) -> (r: Result<Option<BotMessage>, Error>)
    ensures
        r == seen_record(persistent_of(messages@, channel, series, now), seen),
{
    match fetch_weekend_message_for_series(messages, channel, series, now) {
        None => Ok(None),
        Some(m) => match seen {
            Outcome::Done => Ok(Some(m)),
            Outcome::NotFound => Ok(None),
            Outcome::Failed => Err(Error::Channel),
        },
    }
}

/// What the outcome of an edit means for the record, of the status message
/// as of a calendar message: after an edit that
/// went through the record takes the new fingerprint; the record of a
/// message that is not there is deleted, so that the message is posted anew;
/// after any other failure the record stays, and the edit is tried again.
pub open spec fn edit_settled(edit: EditView, outcome: Outcome) -> Settle {
    match outcome {
        Outcome::Done => Settle::StoreHash { id: edit.id, hash: edit.hash },
        Outcome::NotFound => Settle::Forget { id: edit.id },
        Outcome::Failed => Settle::Keep,
    }
}

/// What the outcome of a delete means for the record: the record of a
/// message that is off the channel is deleted; after any other failure it
/// stays, and the delete is tried again.
pub open spec fn delete_settled(target: MessageRef, outcome: Outcome) -> Settle {
    if outcome.gone() {
        Settle::Forget { id: target.id }
    } else {
        Settle::Keep
    }
}

/// What the outcome of an edit means for the record, of the status message
/// as of a calendar message.
pub fn update_persistent_message(edit: &MessageEdit, outcome: Outcome) -> (r: Settle)
    ensures
        r == edit_settled(edit@, outcome),
{
    match outcome {
        Outcome::Done => Settle::StoreHash { id: edit.id, hash: edit.hash },
        Outcome::NotFound => Settle::Forget { id: edit.id },
        Outcome::Failed => Settle::Keep,
    }
}

/// What the outcome of a delete means for the record, of the status
/// message as of a calendar message.
pub fn delete_persistent_message(target: MessageRef, outcome: Outcome) -> (r: Settle)
    ensures
        r == delete_settled(target, outcome),
{
    match outcome {
        Outcome::Failed => Settle::Keep,
        _ => Settle::Forget { id: target.id },
    }
}

/// The records that are to be removed at `now`, in the order given.
pub open spec fn expired_of(messages: Seq<BotMessage>, now: i64) -> Seq<MessageRef> {
    messages.filter(|m: BotMessage| m.is_expired(now)).map_values(|m: BotMessage| m.target())
}

/// The records that are to be removed at `now`, in the order given.
pub fn expired_messages(messages: &Vec<BotMessage>, now: i64) -> (r: Vec<MessageRef>)
    ensures
        r@ == expired_of(messages@, now),
{
    let mut out: Vec<MessageRef> = Vec::new();
    let mut i: usize = 0;
    let ghost due = |m: BotMessage| m.is_expired(now);
    let ghost target = |m: BotMessage| m.target();
    assert(messages@.take(0) =~= Seq::<BotMessage>::empty());
    while i < messages.len()
        invariant
            i <= messages.len(),
            due == |m: BotMessage| m.is_expired(now),
            target == |m: BotMessage| m.target(),
            out@ == messages@.take(i as int).filter(due).map_values(target),
        decreases messages.len() - i,
    {
        proof {
            let prefix = messages@.take(i as int);
            let next = messages@.take(i + 1);
            assert(next =~= prefix.push(messages@[i as int]));
            assert(next.drop_last() =~= prefix);
            reveal(Seq::filter);
        }
        if messages[i].expired(now) {
            out.push(messages[i].to_ref());
        }
        i += 1;
        assert(out@ =~= messages@.take(i as int).filter(due).map_values(target));
    }
    assert(messages@.take(i as int) =~= messages@);
    out
}

/// The ids of the records to delete after the sweep of the first `n`
/// expired messages: those of the messages that are off the channel.
pub open spec fn swept_upto(targets: Seq<MessageRef>, outcomes: Seq<Outcome>, n: nat) -> Seq<i64>
    decreases n,
{
    if n == 0 {
        Seq::empty()
    } else {
        let rest = swept_upto(targets, outcomes, (n - 1) as nat);
        if outcomes[n - 1].gone() {
            rest.push(targets[n - 1].id)
        } else {
            rest
        }
    }
}

/// The ids of the records to delete after the sweep of the expired
/// messages, given how the delete of each ended: the record of a message
/// that was deleted or was not there is deleted; the record of a message
/// whose delete failed stays, so that the next sweep tries again. Fails
/// where the outcomes are not as many as the messages.
pub fn check_expired_messages(targets: &Vec<MessageRef>, outcomes: &Vec<Outcome>) -> (r: Result<
    Vec<i64>,
    Error,
>)
    ensures
        targets@.len() != outcomes@.len() ==> r is Err && r->Err_0 == Error::NotSameLen,
        targets@.len() == outcomes@.len() ==> r is Ok && r->Ok_0@ == swept_upto(
            targets@,
            outcomes@,
            targets@.len(),
        ),
{
    if targets.len() != outcomes.len() {
        return Err(Error::NotSameLen);
    }
    let mut ids: Vec<i64> = Vec::new();
    let mut i: usize = 0;
    while i < targets.len()
        invariant
            i <= targets.len(),
            targets@.len() == outcomes@.len(),
            ids@ == swept_upto(targets@, outcomes@, i as nat),
        decreases targets.len() - i,
    {
        match outcomes[i] {
            Outcome::Failed => {},
            _ => {
                ids.push(targets[i].id);
            },
        }
        i += 1;
    }
    Ok(ids)
}

/// In a sweep, the record of each message that is off the channel is
/// deleted, and only those: an id among those to delete belongs to a
/// message whose delete went through or found nothing.
pub proof fn lemma_sweep_forgets_the_gone(targets: Seq<MessageRef>, outcomes: Seq<Outcome>, n: nat)
    requires
        n <= targets.len(),
        n <= outcomes.len(),
    ensures
        forall|i: int|
            0 <= i < n && (#[trigger] outcomes[i]).gone() ==> swept_upto(
                targets,
                outcomes,
                n,
            ).contains(targets[i].id),
        forall|id: i64| #[trigger]
            swept_upto(targets, outcomes, n).contains(id) ==> exists|i: int|
                0 <= i < n && (#[trigger] outcomes[i]).gone() && targets[i].id == id,
    decreases n,
{
    if n > 0 {
        let m = (n - 1) as nat;
        lemma_sweep_forgets_the_gone(targets, outcomes, m);
        let rest = swept_upto(targets, outcomes, m);
        let all = swept_upto(targets, outcomes, n);
        assert forall|i: int| 0 <= i < n && (#[trigger] outcomes[i]).gone() implies all.contains(
            targets[i].id,
        ) by {
            if i < m {
                assert(rest.contains(targets[i].id));
                let k = choose|k: int| 0 <= k < rest.len() && rest[k] == targets[i].id;
                assert(all[k] == targets[i].id);
            } else {
                assert(all[all.len() - 1] == targets[i].id);
            }
        }
        assert forall|id: i64| #[trigger] all.contains(id) implies exists|i: int|
            0 <= i < n && (#[trigger] outcomes[i]).gone() && targets[i].id == id by {
            let k = choose|k: int| 0 <= k < all.len() && all[k] == id;
            if k < rest.len() {
                assert(rest[k] == id);
                assert(rest.contains(id));
            } else {
                assert(outcomes[m as int].gone() && targets[m as int].id == id);
            }
        }
    }
}

/// When an announcement that is posted at `now` expires: after the
/// session's length, which may be nothing; after half an hour where the
/// length is unknown, that is below zero. Both the length in milliseconds
/// and the sum stop at the greatest point in time that can be held.
pub open spec fn expiry_of(now: i64, duration: i64) -> i64 {
    let span: int = if duration < 0 {
        FALLBACK_EXPIRY_MS as int
    } else if duration * 1000 > i64::MAX {
        i64::MAX as int
    } else {
        duration * 1000
    };
    if now + span > i64::MAX {
        i64::MAX
    } else {
        (now + span) as i64
    }
}

/// When an announcement that is posted at `now` expires.
pub fn expiry(now: i64, duration: i64) -> (r: i64)
    ensures
        r == expiry_of(now, duration),
        duration == 0 ==> r == now,
{
    let span: i64 = if duration >= 0 {
        match duration.checked_mul(1000) {
            Some(ms) => ms,
            None => i64::MAX,
        }
    } else {
        FALLBACK_EXPIRY_MS
    };
    match now.checked_add(span) {
        Some(at) => at,
        None => i64::MAX,
    }
}

/// An announcement to send.
#[derive(Debug)]
pub struct Notice {
    /// The id of the session that is announced.
    pub session: i32,
    pub channel: u64,
    pub content: String,
}

/// What a `Notice` holds.
pub struct NoticeView {
    pub session: i32,
    pub channel: u64,
    pub content: Seq<char>,
}

impl View for Notice {
    type V = NoticeView;

    open spec fn view(&self) -> NoticeView {
        NoticeView {
            session: self.session,
            channel: self.channel,
            content: self.content@,
        }
    }
}

/// The announcement of a session.
pub open spec fn notice_of(weekend: Weekend, s: Session, channel: u64, role: u64) -> NoticeView {
    NoticeView { session: s.id, channel, content: notification_text(weekend, s, role) }
}

/// The announcement of a session.
pub fn send_notification(weekend: &Weekend, session: &Session, channel: u64, role: u64) -> (r:
    Notice)
    ensures
        r@ == notice_of(*weekend, *session, channel, role),
{
    Notice { session: session.id, channel, content: notification_str(weekend, session, role) }
}

/// The record of an announcement that was posted under the handle
/// `message` at `now`: it expires after the session's length, at `now` where
/// the length is nothing.
pub fn create_new_notifications_msg_db(
    session: &Session,
    series: Series,
    channel: u64,
    message: u64,
    now: i64,
) -> (r: NewMessage)
    ensures
        r == (NewMessage {
            channel,
            message,
            kind: MessageKind::Notification,
            posted: now,
            expiry: Some(expiry_of(now, session.duration)),
            hash: None,
            series,
        }),
{
    NewMessage {
        channel,
        message,
        kind: MessageKind::Notification,
        posted: now,
        expiry: Some(expiry(now, session.duration)),
        hash: None,
        series,
    }
}

/// What a look at a weekend's sessions found.
#[derive(Debug)]
pub struct NotifyCheck {
    /// The ids of the sessions that passed unannounced; they are finished.
    pub skipped: Vec<i32>,
    /// The place of the session to announce, if there is one.
    pub session: Option<usize>,
}

/// Finishes the sessions that pass unannounced at `now` and finds the
/// session to announce.
pub fn check_notify_session(weekend: &mut FullWeekend, now: i64) -> (r: NotifyCheck)
    ensures
        final(weekend)@ == old(weekend)@.after_skips(now),
        old(weekend)@.leads_to(final(weekend)@),
        r.skipped@ == old(weekend)@.skipped(now),
        match r.session {
            Some(k) => final(weekend)@.next_index(now) == Some(k as int)
                && k < final(weekend).sessions@.len(),
            None => final(weekend)@.next_index(now).is_none(),
        },
{
    let skipped = weekend.skip_ignored(now);
    let session = weekend.next_index(now);
    NotifyCheck { skipped, session }
}

/// The weekend and the session to announce at `now`, if there is one.
pub fn check_active_session(weekend: Option<&FullWeekend>, now: i64) -> (r: Option<
    (Weekend, Session),
>)
    ensures
        r == (match weekend {
            None => None::<(Weekend, Session)>,
            Some(w) => match w@.next(now) {
                Some(s) => Some((w.weekend, s)),
                None => None,
            },
        }),
{
    match weekend {
        None => None,
        Some(w) => match w.next_session(now) {
            Some(s) => Some((w.weekend.copy(), s.copy())),
            None => None,
        },
    }
}

/// What is to be written once a session was announced.
#[derive(Clone, Copy, Debug, PartialEq, Eq, Structural)]
pub struct Closing {
    /// The id of the session that is now finished.
    pub session: i32,
    /// The id of the weekend, where it is now done.
    pub weekend: Option<i32>,
    /// The series whose messages no longer hold, where the weekend is now
    /// done.
    pub expire: Option<Series>,
}

/// What is to be written once the sessions with the id `id` were announced.
pub open spec fn closing_of(w: Schedule, id: i32) -> Closing {
    if w.weekend.status == WeekendStatus::Open && w.after_done(id).terminal() {
        Closing { session: id, weekend: Some(w.weekend.id), expire: Some(w.weekend.series) }
    } else {
        Closing { session: id, weekend: None, expire: None }
    }
}

/// Whether a schedule has a pending session with the id `id`.
pub open spec fn has_pending_session(w: Schedule, id: i32) -> bool {
    exists|i: int|
        0 <= i < w.sessions.len() && (#[trigger] w.sessions[i]).id == id
            && w.sessions[i].status.is_pending()
}

/// Whether the weekend has a pending session with the id `id`.
fn find_pending(weekend: &FullWeekend, id: i32) -> (r: bool)
    ensures
        r == has_pending_session(weekend@, id),
{
    let mut i: usize = 0;
    while i < weekend.sessions.len()
        invariant
            i <= weekend.sessions.len(),
            forall|j: int|
                0 <= j < i ==> !((#[trigger] weekend.sessions@[j]).id == id
                    && weekend.sessions@[j].status.is_pending()),
        decreases weekend.sessions.len() - i,
    {
        if weekend.sessions[i].id == id && weekend.sessions[i].status.pending() {
            assert(weekend@.sessions[i as int].id == id);
            return true;
        }
        i += 1;
    }
    assert forall|j: int| 0 <= j < weekend@.sessions.len() implies !((
    #[trigger] weekend@.sessions[j]).id == id && weekend@.sessions[j].status.is_pending()) by {
        assert(weekend@.sessions[j] == weekend.sessions@[j]);
    }
    false
}

/// Records that the session with the id `id` was announced: it is finished,
/// and a weekend that is over with it is done. Fails, and changes nothing,
/// where the weekend has no pending session with that id: a session that is
/// over already is not finished a second time.
pub fn mark_session_notified(weekend: &mut FullWeekend, id: i32) -> (r: Result<Closing, Error>)
    ensures
        old(weekend)@.leads_to(final(weekend)@),
        has_pending_session(old(weekend)@, id) ==> r == Ok::<Closing, Error>(
            closing_of(old(weekend)@, id),
        ) && final(weekend)@ == old(weekend)@.after_done(id).closed(),
        !has_pending_session(old(weekend)@, id) ==> r == Err::<Closing, Error>(Error::NotFound)
            && final(weekend)@ == old(weekend)@,
{
    if !find_pending(weekend, id) {
        return Err(Error::NotFound);
    }
    let ghost before = weekend@;
    let found = weekend.mark_session_done(id);
    assert(found.is_ok());
    let ghost marked = weekend@;
    let done = weekend.mark_weekend_done();
    proof {
        lemma_leads_to_chain(before, marked, weekend@);
    }
    if done {
        Ok(
            Closing {
                session: id,
                weekend: Some(weekend.weekend.id),
                expire: Some(weekend.weekend.series),
            },
        )
    } else {
        Ok(Closing { session: id, weekend: None, expire: None })
    }
}

/// Whether a record is a status message or a calendar message of the
/// series that is not yet set to expire.
pub open spec fn shows_weekend_of(m: BotMessage, series: Series) -> bool {
    (m.kind == MessageKind::Persistent || m.kind == MessageKind::Calendar) && m.series == series
        && m.expiry.is_none()
}

/// The ids of the records that no longer hold once a weekend of the series
/// is done: the status message and the calendar messages of the series that
/// are not yet set to expire, in the order given.
pub open spec fn invalidated(messages: Seq<BotMessage>, series: Series) -> Seq<i64> {
    messages.filter(|m: BotMessage| shows_weekend_of(m, series)).map_values(|m: BotMessage| m.id)
}

/// The ids of the records that are to be set to expire once a weekend of
/// the series is done, so that their messages are posted anew for the
/// weekend that comes next.
pub fn mark_weekend_message_for_series_expired(messages: &Vec<BotMessage>, series: Series) -> (r:
    Vec<i64>)
    ensures
        r@ == invalidated(messages@, series),
{
    let mut out: Vec<i64> = Vec::new();
    let mut i: usize = 0;
    let ghost wanted = |m: BotMessage| shows_weekend_of(m, series);
    let ghost id_of = |m: BotMessage| m.id;
    assert(messages@.take(0) =~= Seq::<BotMessage>::empty());
    while i < messages.len()
        invariant
            i <= messages.len(),
            wanted == |m: BotMessage| shows_weekend_of(m, series),
            id_of == |m: BotMessage| m.id,
            out@ == messages@.take(i as int).filter(wanted).map_values(id_of),
        decreases messages.len() - i,
    {
        proof {
            let prefix = messages@.take(i as int);
            let next = messages@.take(i + 1);
            assert(next =~= prefix.push(messages@[i as int]));
            assert(next.drop_last() =~= prefix);
            reveal(Seq::filter);
        }
        let m = &messages[i];
        let shows: bool = match m.kind {
            MessageKind::Persistent => true,
            MessageKind::Calendar => true,
            _ => false,
        };
        let pending: bool = match m.expiry {
            None => true,
            Some(_) => false,
        };
        if shows && m.series == series && pending {
            out.push(m.id);
        }
        i += 1;
        assert(out@ =~= messages@.take(i as int).filter(wanted).map_values(id_of));
    }
    assert(messages@.take(i as int) =~= messages@);
    out
}

/// The series whose weekend is over once `session` has the status it
/// carries: none where there is no weekend, where the weekend is done
/// already, or where a session is still to come.
pub open spec fn expired_weekend(weekend: Option<Schedule>, session: Session) -> Option<Series> {
    match weekend {
        None => None,
        Some(w) => if w.weekend.status != WeekendStatus::Done && w.sessions.len() > 0 && forall|
            i: int,
        |
            0 <= i < w.sessions.len() ==> if (#[trigger] w.sessions[i]).id == session.id {
                session.status.is_terminal()
            } else {
                w.sessions[i].status.is_terminal()
            } {
            Some(w.weekend.series)
        } else {
            None
        },
    }
}

/// The series whose weekend is over once `session` has the status it
/// carries.
pub fn check_expired_weekend(weekend: Option<&FullWeekend>, session: &Session) -> (r: Option<
    Series,
>)
    ensures
        r == expired_weekend(schedule_of(weekend), *session),
{
    let w: &FullWeekend = match weekend {
        Some(w) => w,
        None => {
            return None;
        },
    };
    if w.weekend.status == WeekendStatus::Done || w.sessions.len() == 0 {
        return None;
    }
    let mut i: usize = 0;
    while i < w.sessions.len()
        invariant
            i <= w.sessions.len(),
            w.weekend.status != WeekendStatus::Done,
            w.sessions@.len() > 0,
            weekend == Some(w),
            forall|j: int|
                0 <= j < i ==> if (#[trigger] w.sessions@[j]).id == session.id {
                    session.status.is_terminal()
                } else {
                    w.sessions@[j].status.is_terminal()
                },
        decreases w.sessions.len() - i,
    {
        let over: bool = if w.sessions[i].id == session.id {
            session.status.terminal()
        } else {
            w.sessions[i].status.terminal()
        };
        if !over {
            assert(w@.sessions[i as int] == w.sessions@[i as int]);
            return None;
        }
        i += 1;
    }
    Some(w.weekend.series)
}

/// The ids of the weekends that are to be marked done: those that are open
/// and over, in the order given.
pub open spec fn finished_weekends(weekends: Seq<FullWeekend>) -> Seq<i32> {
    weekends.filter(
        |w: FullWeekend| w.weekend.status == WeekendStatus::Open && w@.terminal(),
    ).map_values(|w: FullWeekend| w.weekend.id)
}

/// The ids of the weekends that are to be marked done.
pub fn check_weekends(weekends: &Vec<FullWeekend>) -> (r: Vec<i32>)
    ensures
        r@ == finished_weekends(weekends@),
{
    let mut out: Vec<i32> = Vec::new();
    let mut i: usize = 0;
    let ghost over = |w: FullWeekend| w.weekend.status == WeekendStatus::Open && w@.terminal();
    let ghost id_of = |w: FullWeekend| w.weekend.id;
    assert(weekends@.take(0) =~= Seq::<FullWeekend>::empty());
    while i < weekends.len()
        invariant
            i <= weekends.len(),
            over == |w: FullWeekend| w.weekend.status == WeekendStatus::Open && w@.terminal(),
            id_of == |w: FullWeekend| w.weekend.id,
            out@ == weekends@.take(i as int).filter(over).map_values(id_of),
        decreases weekends.len() - i,
    {
        proof {
            let prefix = weekends@.take(i as int);
            let next = weekends@.take(i + 1);
            assert(next =~= prefix.push(weekends@[i as int]));
            assert(next.drop_last() =~= prefix);
            reveal(Seq::filter);
        }
        if weekends[i].weekend.status == WeekendStatus::Open && weekends[i].is_done() {
            out.push(weekends[i].weekend.id);
        }
        i += 1;
        assert(out@ =~= weekends@.take(i as int).filter(over).map_values(id_of));
    }
    assert(weekends@.take(i as int) =~= weekends@);
    out
}

/// What one pass over a weekend asks for.
#[derive(Debug)]
pub struct Plan {
    /// The ids of the sessions that passed unannounced; they are to be
    /// stored as finished.
    pub skipped: Vec<i32>,
    /// The announcement to send, if a session is due. Once it is sent,
    /// `mark_session_notified` says what is to be written; where sending
    /// fails, nothing is, and the session is due again in the next pass.
    pub notice: Option<Notice>,
    /// Whether the weekend was found over and is to be stored as done.
    pub closed: bool,
    /// The series whose status message and calendar messages no longer
    /// hold, where the weekend was found over.
    pub expire: Option<Series>,
    /// What is to be done about the status message.
    pub persistent: PersistentStep,
}

/// The view of an announcement, if there is one.
pub open spec fn notice_view(notice: Option<Notice>) -> Option<NoticeView> {
    match notice {
        Some(n) => Some(n@),
        None => None,
    }
}

/// One pass over the next weekend of a series at `now`: the sessions that
/// pass unannounced are finished, a weekend that is over is closed, the
/// session that is due is announced, and the status message of the
/// weekend's series, found among the records, is brought up to date with
/// what the weekend then shows. `seen` says how the look at the posted
/// message of the status record ended; it plays no part where there is no
/// such record.
pub fn runner(
    weekend: &mut FullWeekend,
    messages: &Vec<BotMessage>,
    channel: u64,
    role: u64,
    now: i64,
    seen: Outcome,
) -> (plan: Plan)
    ensures
        final(weekend)@ == old(weekend)@.after_skips(now).closed(),
        old(weekend)@.leads_to(final(weekend)@),
        plan.skipped@ == old(weekend)@.skipped(now),
        plan.closed == (old(weekend).weekend.status == WeekendStatus::Open
            && old(weekend)@.after_skips(now).terminal()),
        plan.expire == (if plan.closed {
            Some(old(weekend).weekend.series)
        } else {
            None::<Series>
        }),
        notice_view(plan.notice) == (match final(weekend)@.next(now) {
            Some(s) => Some(notice_of(final(weekend).weekend, s, channel, role)),
            None => None,
        }),
        plan.persistent@ == persistent_step(
            persistent_of(messages@, channel, old(weekend).weekend.series, now),
            seen,
            Some(final(weekend)@),
            channel,
            now,
        ),
{
    let ghost before = weekend@;
    let skipped = weekend.skip_ignored(now);
    let ghost skipped_state = weekend@;
    let closed = weekend.mark_weekend_done();
    proof {
        lemma_leads_to_chain(before, skipped_state, weekend@);
    }
    let notice = match weekend.next_session(now) {
        Some(s) => Some(send_notification(&weekend.weekend, s, channel, role)),
        None => None,
    };
    let series = weekend.weekend.series;
    let persistent = create_persistent_message(
        messages,
        Some(&*weekend),
        channel,
        series,
        now,
        seen,
    );
    let expire = if closed {
        Some(series)
    } else {
        None
    };
    Plan { skipped, notice, closed, expire, persistent }
}

/// The record as it is once a pass's step for the status message was
/// carried out: a posted message is recorded with its fingerprint, under the
/// id that the store gives; an edited one takes the new fingerprint; a
/// removed or forgotten one has no record.
pub open spec fn record_after(
    existing: Option<BotMessage>,
    step: PersistentView,
    id: i64,
    message: u64,
    now: i64,
    series: Series,
) -> Option<BotMessage> {
    match step {
        PersistentView::Keep => existing,
        PersistentView::Post { channel, content, hash, stale } => Some(
            (NewMessage {
                channel,
                message,
                kind: MessageKind::Persistent,
                posted: now,
                expiry: None,
                hash: Some(hash),
                series,
            }).with_id(id),
        ),
        PersistentView::Edit(e) => match existing {
            Some(m) => Some(BotMessage { hash: Some(e.hash), ..m }),
            None => None,
        },
        PersistentView::Remove(_) => None,
        PersistentView::Forget { id } => None,
    }
}

/// A status message that is up to date is left alone: once the step of a
/// pass whose look at the message did not fail was carried out, a second
/// pass over the same weekend, which finds the message there, asks for
/// nothing, at whatever time it runs.
pub proof fn lemma_unchanged_weekend_is_kept(
    existing: Option<BotMessage>,
    seen: Outcome,
    weekend: Option<Schedule>,
    channel: u64,
    id: i64,
    message: u64,
    now: i64,
    later: i64,
)
    requires
        seen != Outcome::Failed,
    ensures
        persistent_step(
            record_after(
                existing,
                persistent_step(existing, seen, weekend, channel, now),
                id,
                message,
                now,
                match weekend {
                    Some(w) => w.weekend.series,
                    None => Series::Unsupported,
                },
            ),
            Outcome::Done,
            weekend,
            channel,
            later,
        ) == PersistentView::Keep,
{
}

} // verus!
