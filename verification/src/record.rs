//! Weekends, sessions and the records of posted messages.
//!
//! Points in time are whole milliseconds since the Unix epoch; a session's
//! duration is in seconds.

use vstd::prelude::*;
use vstd::std_specs::cmp::PartialEqSpecImpl;
use crate::model::{
    MessageKind, NotificationSetting, Series, SessionKind, SessionStatus, WeekendStatus,
};
use crate::text::{decimal, push_i64};

verus! {

/// How long before its start a session is announced, in milliseconds.
pub const NOTIFY_WINDOW_MS: i64 = 300_000;

/// The whole seconds since the epoch of a point in time given in
/// milliseconds, rounded down.
pub open spec fn seconds_of(millis: int) -> int {
    millis / 1000
}

/// The whole seconds since the epoch of a point in time, rounded down.
pub fn timestamp(millis: i64) -> (r: i64)
    ensures
        r == seconds_of(millis as int),
{
    if millis >= 0 {
        millis / 1000
    } else {
        let below: i64 = -(millis + 1);
        -(below / 1000) - 1
    }
}

/// One timed part of a weekend.
#[derive(Debug)]
pub struct Session {
    pub id: i32,
    pub weekend: i32,
    pub kind: SessionKind,
    pub status: SessionStatus,
    pub notify: NotificationSetting,
    /// The expected length in seconds.
    pub duration: i64,
    /// The start, in milliseconds since the epoch.
    pub date: i64,
    pub number: Option<i16>,
    pub title: Option<String>,
}

/// What a session is called where it has no title of its own.
pub open spec fn kind_name(kind: SessionKind, number: Option<i16>) -> Seq<char> {
    match kind {
        SessionKind::Custom => "No title supplied"@,
        SessionKind::Practice => "FP"@ + match number {
            Some(n) => decimal(n as int),
            None => Seq::empty(),
        },
        SessionKind::Qualifying => "Qualifying"@,
        SessionKind::Race => "Race"@,
        SessionKind::SprintRace => "Sprint Race"@,
        SessionKind::SprintQuali => "Sprint Shootout"@,
        SessionKind::PreSeasonTest => "Pre-Season Test"@,
        SessionKind::FeatureRace => "Feature Race"@,
        SessionKind::Unsupported => "Unkown session type"@,
    }
}

impl Session {
    /// The name under which a session is announced: its title, or else the
    /// name of its kind.
    pub open spec fn name(self) -> Seq<char> {
        match self.title {
            Some(t) => t@,
            None => kind_name(self.kind, self.number),
        }
    }

    /// Whether the start lies in the window before `now`: at least zero and
    /// under five minutes ahead.
    pub open spec fn in_window(self, now: i64) -> bool {
        0 <= self.date - now < NOTIFY_WINDOW_MS
    }

    /// Whether the session is to be announced at `now`.
    pub open spec fn actionable(self, now: i64) -> bool {
        self.status.is_pending() && self.notify == NotificationSetting::Notify && self.in_window(
            now,
        )
    }

    /// Whether the session passes unannounced at `now`.
    pub open spec fn skippable(self, now: i64) -> bool {
        self.status.is_pending() && self.notify == NotificationSetting::Ignore && self.in_window(
            now,
        )
    }

    /// Whether the session is over at `now`: its start and length lie behind.
    pub open spec fn is_over(self, now: i64) -> bool {
        seconds_of(now as int) > seconds_of(self.date as int) + self.duration
    }

    /// The session with another status.
    pub open spec fn with_status(self, status: SessionStatus) -> Session {
        Session { status, ..self }
    }

    /// The session once it has been announced or passed: a pending session
    /// is finished, any other stays as it is.
    pub open spec fn finished(self) -> Session {
        if self.status.is_pending() {
            self.with_status(SessionStatus::Finished)
        } else {
            self
        }
    }

    /// A copy of the session.
    pub fn copy(&self) -> (r: Session)
        ensures
            r == *self,
    {
        Session {
            id: self.id,
            weekend: self.weekend,
            kind: self.kind,
            status: self.status,
            notify: self.notify,
            duration: self.duration,
            date: self.date,
            number: self.number,
            title: match &self.title {
                Some(t) => Some(t.clone()),
                None => None,
            },
        }
    }

    /// The name under which the session is announced.
    pub fn pretty_name(&self) -> (r: String)
        ensures
            r@ == self.name(),
    {
        if let Some(title) = &self.title {
            return title.clone();
        }
        let mut out = String::new();
        match self.kind {
            SessionKind::Custom => out.append("No title supplied"),
            SessionKind::Practice => {
                out.append("FP");
                match self.number {
                    Some(n) => push_i64(&mut out, n as i64),
                    None => {},
                }
            },
            SessionKind::Qualifying => out.append("Qualifying"),
            SessionKind::Race => out.append("Race"),
            SessionKind::SprintRace => out.append("Sprint Race"),
            SessionKind::SprintQuali => out.append("Sprint Shootout"),
            SessionKind::PreSeasonTest => out.append("Pre-Season Test"),
            SessionKind::FeatureRace => out.append("Feature Race"),
            SessionKind::Unsupported => out.append("Unkown session type"),
        }
        assert(out@ =~= self.name());
        out
    }

    /// Whether the start lies in the window before `now`.
    pub fn is_in_window(&self, now: i64) -> (r: bool)
        ensures
            r == self.in_window(now),
    {
        self.date >= now && (now > i64::MAX - NOTIFY_WINDOW_MS || self.date < now
            + NOTIFY_WINDOW_MS)
    }

    /// Whether the session is to be announced at `now`.
    pub fn is_actionable(&self, now: i64) -> (r: bool)
        ensures
            r == self.actionable(now),
    {
        self.status.pending() && self.notify == NotificationSetting::Notify && self.is_in_window(
            now,
        )
    }

    /// Whether the session passes unannounced at `now`.
    pub fn is_skippable(&self, now: i64) -> (r: bool)
        ensures
            r == self.skippable(now),
    {
        self.status.pending() && self.notify == NotificationSetting::Ignore && self.is_in_window(
            now,
        )
    }

    /// Whether the session is over at `now`.
    pub fn over(&self, now: i64) -> (r: bool)
        ensures
            r == self.is_over(now),
    {
        let start: i64 = timestamp(self.date);
        match start.checked_add(self.duration) {
            Some(end) => timestamp(now) > end,
            None => self.duration < 0,
        }
    }

    /// Marks the session as announced or passed.
    pub fn finish(&mut self)
        ensures
            *final(self) == old(self).finished(),
    {
        if self.status.pending() {
            self.status = SessionStatus::Finished;
        }
    }
}

/// One event of the calendar.
#[derive(Debug)]
pub struct Weekend {
    pub id: i32,
    pub series: Series,
    pub name: String,
    pub icon: String,
    pub year: i16,
    /// The start, in milliseconds since the epoch.
    pub start_date: i64,
    pub status: WeekendStatus,
}

impl Weekend {
    /// A copy of the weekend.
    pub fn copy(&self) -> (r: Weekend)
        ensures
            r == *self,
    {
        Weekend {
            id: self.id,
            series: self.series,
            name: self.name.clone(),
            icon: self.icon.clone(),
            year: self.year,
            start_date: self.start_date,
            status: self.status,
        }
    }
}

/// Two weekends are the same weekend where they have the same id, whatever
/// else they hold.
impl PartialEq for Weekend {
    fn eq(&self, other: &Weekend) -> (r: bool) {
        self.id == other.id
    }
}

impl PartialEqSpecImpl for Weekend {
    open spec fn obeys_eq_spec() -> bool {
        true
    }

    open spec fn eq_spec(&self, other: &Weekend) -> bool {
        self.id == other.id
    }
}

/// The record of one posted message.
#[derive(Debug)]
pub struct BotMessage {
    pub id: i64,
    /// The channel the message was posted in.
    pub channel: u64,
    /// The message's handle in that channel.
    pub message: u64,
    pub kind: MessageKind,
    /// When it was posted, in milliseconds since the epoch.
    pub posted: i64,
    /// From when on the message is to be removed, if ever.
    pub expiry: Option<i64>,
    /// The fingerprint of the content that was last posted.
    pub hash: Option<u64>,
    pub series: Series,
}

/// A message that was posted and that the store has not taken yet: what its
/// record will hold, without the id that the store gives.
#[derive(Debug)]
pub struct NewMessage {
    pub channel: u64,
    pub message: u64,
    pub kind: MessageKind,
    pub posted: i64,
    pub expiry: Option<i64>,
    pub hash: Option<u64>,
    pub series: Series,
}

impl NewMessage {
    /// The record once the store has taken it under the id `id`.
    pub open spec fn with_id(self, id: i64) -> BotMessage {
        BotMessage {
            id,
            channel: self.channel,
            message: self.message,
            kind: self.kind,
            posted: self.posted,
            expiry: self.expiry,
            hash: self.hash,
            series: self.series,
        }
    }

    /// The record once the store has taken it under the id `id`.
    pub fn stored(&self, id: i64) -> (r: BotMessage)
        ensures
            r == self.with_id(id),
    {
        BotMessage {
            id,
            channel: self.channel,
            message: self.message,
            kind: self.kind,
            posted: self.posted,
            expiry: self.expiry,
            hash: self.hash,
            series: self.series,
        }
    }
}

impl BotMessage {
    /// Whether the message is to be removed at `now`.
    pub open spec fn is_expired(self, now: i64) -> bool {
        match self.expiry {
            Some(at) => at < now,
            None => false,
        }
    }

    /// Whether the message is to be removed at `now`.
    pub fn expired(&self, now: i64) -> (r: bool)
        ensures
            r == self.is_expired(now),
    {
        match self.expiry {
            Some(at) => at < now,
            None => false,
        }
    }

    /// A copy of the record.
    pub fn copy(&self) -> (r: BotMessage)
        ensures
            r == *self,
    {
        BotMessage {
            id: self.id,
            channel: self.channel,
            message: self.message,
            kind: self.kind,
            posted: self.posted,
            expiry: self.expiry,
            hash: self.hash,
            series: self.series,
        }
    }
}

} // verus!
