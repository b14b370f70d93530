//! The text of the messages: the status message of the next weekend, the
//! calendar and the announcement of a session.

use vstd::prelude::*;
use crate::model::{Series, SessionKind};
use crate::record::{seconds_of, timestamp, Session, Weekend};
use crate::schedule::{FullWeekend, Schedule};
use crate::text::{decimal, pad_left, push_i64, push_padded, push_u64, decimal_nat};

verus! {

/// The width of the column that holds a session's name.
pub const NAME_WIDTH: usize = 12;

/// A point in time as the channel shows it in the reader's own time zone:
/// the seconds since the epoch and a letter for the form.
pub open spec fn stamp(millis: i64, style: Seq<char>) -> Seq<char> {
    "<t:"@ + decimal(seconds_of(millis as int)) + ":"@ + style + ">"@
}

/// The mark that strikes out a session that is over.
pub open spec fn strike(s: Session, now: i64) -> Seq<char> {
    if s.is_over(now) {
        "~~"@
    } else {
        Seq::empty()
    }
}

/// A session's name as a column of the overview: a fixed label for
/// its kind, or the title of a custom session.
pub open spec fn column(s: Session) -> Seq<char> {
    match s.kind {
        SessionKind::Custom => match s.title {
            Some(t) => t@,
            None => "No title supplied"@,
        },
        SessionKind::Practice => "`         FP"@ + match s.number {
            Some(n) => decimal(n as int),
            None => Seq::empty(),
        } + "`"@,
        SessionKind::Qualifying => "`  Qualifying`"@,
        SessionKind::Race => "`        Race`"@,
        SessionKind::SprintRace => "` Sprint Race`"@,
        SessionKind::SprintQuali => "`Sprint Quali`"@,
        SessionKind::FeatureRace => "`Feature Race`"@,
        SessionKind::PreSeasonTest => "`Pre-Season Test`"@,
        SessionKind::Unsupported => "Unsupported!!"@,
    }
}

/// One line of a weekend's overview: the session's column and its start,
/// struck out where the session is over.
pub open spec fn overview_line(s: Session, now: i64) -> Seq<char> {
    "\n> "@ + strike(s, now) + column(s) + ": "@ + stamp(s.date, "F"@) + strike(s, now) + " ("@
        + stamp(s.date, "R"@) + ")"@
}

/// The lines of a weekend's overview.
pub open spec fn overview_lines(sessions: Seq<Session>, now: i64) -> Seq<char>
    decreases sessions.len(),
{
    if sessions.len() == 0 {
        Seq::empty()
    } else {
        overview_lines(sessions.drop_last(), now) + overview_line(sessions.last(), now)
    }
}

/// A weekend's overview: icon and name, then a line for each session.
pub open spec fn overview(w: Schedule, now: i64) -> Seq<char> {
    w.weekend.icon@ + " **"@ + w.weekend.name@ + "**"@ + overview_lines(w.sessions, now)
}

/// The status message that is built around a weekend's overview.
pub open spec fn persistent_text(w: Schedule, now: i64) -> Seq<char> {
    "## Next Event\n"@ + overview(w, now)
        + "\n\nUse <id:customize> to get a notification when a session is live.\nTimes are in your timezone"@
}

/// One line of the status message: the session's name in its column and
/// its start, struck out where the session is over.
pub open spec fn status_line(s: Session, now: i64) -> Seq<char> {
    "\n> `"@ + pad_left(s.name(), NAME_WIDTH as nat) + "` "@ + strike(s, now) + stamp(
        s.date,
        "f"@,
    ) + " ("@ + stamp(s.date, "R"@) + ")"@ + strike(s, now)
}

/// The session lines of the status message.
pub open spec fn status_lines(sessions: Seq<Session>, now: i64) -> Seq<char>
    decreases sessions.len(),
{
    if sessions.len() == 0 {
        Seq::empty()
    } else {
        status_lines(sessions.drop_last(), now) + status_line(sessions.last(), now)
    }
}

/// The hint under the status message that tells readers how to subscribe.
pub open spec fn role_hint(series: Series) -> Seq<char> {
    "\n\nUse <id:customize> to get the `"@ + series.label()
        + "-notifications` role\n**Times are in your Timezone**"@
}

/// The status message of the next weekend.
pub open spec fn status_text(w: Schedule, extra: bool, now: i64) -> Seq<char> {
    "## Next Event:\n**"@ + w.weekend.icon@ + " "@ + w.weekend.name@ + "**"@ + status_lines(
        w.sessions,
        now,
    ) + if extra {
        role_hint(w.weekend.series)
    } else {
        Seq::empty()
    }
}

/// One line of a calendar message.
pub open spec fn calendar_line(s: Session) -> Seq<char> {
    "\n> `"@ + pad_left(s.name(), NAME_WIDTH as nat) + "` "@ + stamp(s.date, "f"@) + " ("@
        + stamp(s.date, "R"@) + ")"@
}

/// The session lines of a calendar message.
pub open spec fn calendar_lines(sessions: Seq<Session>) -> Seq<char>
    decreases sessions.len(),
{
    if sessions.len() == 0 {
        Seq::empty()
    } else {
        calendar_lines(sessions.drop_last()) + calendar_line(sessions.last())
    }
}

/// The calendar message of one weekend.
pub open spec fn calendar_text(w: Schedule) -> Seq<char> {
    "## "@ + w.weekend.icon@ + " **"@ + w.weekend.name@ + "**"@ + calendar_lines(w.sessions)
}

/// The text that reserves a place for a calendar message.
pub open spec fn placeholder_text() -> Seq<char> {
    "*Reserved for Future use.*"@
}

/// The announcement of a session: the role to call, then the weekend, the
/// session and its start.
pub open spec fn notification_text(weekend: Weekend, s: Session, role: u64) -> Seq<char> {
    "<@&"@ + decimal_nat(role as nat) + ">\n"@ + weekend.icon@ + " "@ + weekend.name@ + " "@
        + s.name() + " is starting: "@ + stamp(s.date, "R"@)
}

/// One session's line in the calendar of several weekends.
pub open spec fn multi_line(s: Session, now: i64) -> Seq<char> {
    strike(s, now) + "> `"@ + pad_left(s.name(), NAME_WIDTH as nat) + "`: "@ + stamp(
        s.date,
        "f"@,
    ) + " ("@ + stamp(s.date, "r"@) + ")"@ + strike(s, now) + "\n"@
}

/// The session lines of one weekend in the calendar of several.
pub open spec fn multi_lines(sessions: Seq<Session>, now: i64) -> Seq<char>
    decreases sessions.len(),
{
    if sessions.len() == 0 {
        Seq::empty()
    } else {
        multi_lines(sessions.drop_last(), now) + multi_line(sessions.last(), now)
    }
}

/// One weekend's part of the calendar of several: a heading, the session
/// lines and an empty line.
pub open spec fn multi_block(w: Schedule, now: i64) -> Seq<char> {
    "## "@ + w.weekend.series.label() + " "@ + decimal(w.weekend.year as int) + " "@
        + w.weekend.name@ + "\n"@ + multi_lines(w.sessions, now) + "\n"@
}

/// The parts of the weekends in the calendar of several.
pub open spec fn multi_blocks(weekends: Seq<Schedule>, now: i64) -> Seq<char>
    decreases weekends.len(),
{
    if weekends.len() == 0 {
        Seq::empty()
    } else {
        multi_blocks(weekends.drop_last(), now) + multi_block(weekends.last(), now)
    }
}

/// The closing words of the calendar of several weekends.
pub open spec fn multi_footer() -> Seq<char> {
    "To get a notification once a session goes live, go to <id:customize> and select the series for which you want to be notified.\nTimes are displayed in your timezone."@
}

/// The calendar of several weekends in one message.
pub open spec fn multi_text(weekends: Seq<Schedule>, now: i64) -> Seq<char> {
    multi_blocks(weekends, now) + multi_footer()
}

/// The views of a list of weekends.
pub open spec fn schedules(weekends: Seq<FullWeekend>) -> Seq<Schedule> {
    Seq::new(weekends.len(), |i: int| weekends[i]@)
}

/// The text that reserves a place for a calendar message.
pub fn placeholder() -> (r: &'static str)
    ensures
        r@ == placeholder_text(),
{
    "*Reserved for Future use.*"
}

/// Appends a point in time in the form that `style` names.
fn push_stamp(out: &mut String, millis: i64, style: &str)
    ensures
        final(out)@ == old(out)@ + stamp(millis, style@),
{
    out.append("<t:");
    push_i64(out, timestamp(millis));
    out.append(":");
    out.append(style);
    out.append(">");
    assert(out@ =~= old(out)@ + stamp(millis, style@));
}

/// Appends the mark that strikes out a session that is over.
fn push_strike(out: &mut String, s: &Session, now: i64)
    ensures
        final(out)@ == old(out)@ + strike(*s, now),
{
    if s.over(now) {
        out.append("~~");
    }
    assert(out@ =~= old(out)@ + strike(*s, now));
}

/// Appends a session's column of the overview.
fn push_column(out: &mut String, s: &Session)
    ensures
        final(out)@ == old(out)@ + column(*s),
{
    match s.kind {
        SessionKind::Custom => match &s.title {
            Some(t) => out.append(t.as_str()),
            None => out.append("No title supplied"),
        },
        SessionKind::Practice => {
            out.append("`         FP");
            match s.number {
                Some(n) => push_i64(out, n as i64),
                None => {},
            }
            out.append("`");
        },
        SessionKind::Qualifying => out.append("`  Qualifying`"),
        SessionKind::Race => out.append("`        Race`"),
        SessionKind::SprintRace => out.append("` Sprint Race`"),
        SessionKind::SprintQuali => out.append("`Sprint Quali`"),
        SessionKind::FeatureRace => out.append("`Feature Race`"),
        SessionKind::PreSeasonTest => out.append("`Pre-Season Test`"),
        SessionKind::Unsupported => out.append("Unsupported!!"),
    }
    assert(out@ =~= old(out)@ + column(*s));
}

/// Appends a session's line of the overview.
fn push_overview_line(out: &mut String, s: &Session, now: i64)
    ensures
        final(out)@ == old(out)@ + overview_line(*s, now),
{
    out.append("\n> ");
    push_strike(out, s, now);
    push_column(out, s);
    out.append(": ");
    push_stamp(out, s.date, "F");
    push_strike(out, s, now);
    out.append(" (");
    push_stamp(out, s.date, "R");
    out.append(")");
    assert(out@ =~= old(out)@ + overview_line(*s, now));
}

/// Appends a session's line of the status message.
fn push_status_line(out: &mut String, s: &Session, now: i64)
    ensures
        final(out)@ == old(out)@ + status_line(*s, now),
{
    let name = s.pretty_name();
    out.append("\n> `");
    push_padded(out, name.as_str(), NAME_WIDTH);
    out.append("` ");
    push_strike(out, s, now);
    push_stamp(out, s.date, "f");
    out.append(" (");
    push_stamp(out, s.date, "R");
    out.append(")");
    push_strike(out, s, now);
    assert(out@ =~= old(out)@ + status_line(*s, now));
}

/// Appends a session's line of a calendar message.
fn push_calendar_line(out: &mut String, s: &Session)
    ensures
        final(out)@ == old(out)@ + calendar_line(*s),
{
    let name = s.pretty_name();
    out.append("\n> `");
    push_padded(out, name.as_str(), NAME_WIDTH);
    out.append("` ");
    push_stamp(out, s.date, "f");
    out.append(" (");
    push_stamp(out, s.date, "R");
    out.append(")");
    assert(out@ =~= old(out)@ + calendar_line(*s));
}

/// Appends a session's line of the calendar of several weekends.
fn push_multi_line(out: &mut String, s: &Session, now: i64)
    ensures
        final(out)@ == old(out)@ + multi_line(*s, now),
{
    let name = s.pretty_name();
    push_strike(out, s, now);
    out.append("> `");
    push_padded(out, name.as_str(), NAME_WIDTH);
    out.append("`: ");
    push_stamp(out, s.date, "f");
    out.append(" (");
    push_stamp(out, s.date, "r");
    out.append(")");
    push_strike(out, s, now);
    out.append("\n");
    assert(out@ =~= old(out)@ + multi_line(*s, now));
}

impl Session {
    /// The session's name as a column of the overview.
    pub fn text(&self) -> (r: String)
        ensures
            r@ == column(*self),
    {
        let mut out = String::new();
        push_column(&mut out, self);
        assert(out@ =~= column(*self));
        out
    }
}

impl FullWeekend {
    /// The weekend's overview at `now`.
    pub fn text(&self, now: i64) -> (r: String)
        ensures
            r@ == overview(self@, now),
    {
        let mut out = String::new();
        out.append(self.weekend.icon.as_str());
        out.append(" **");
        out.append(self.weekend.name.as_str());
        out.append("**");
        let ghost head = out@;
        assert(head =~= self.weekend.icon@ + " **"@ + self.weekend.name@ + "**"@);
        let mut i: usize = 0;
        assert(self.sessions@.take(0) =~= Seq::<Session>::empty());
        assert(out@ =~= head + overview_lines(self.sessions@.take(0), now));
        while i < self.sessions.len()
            invariant
                i <= self.sessions.len(),
                out@ == head + overview_lines(self.sessions@.take(i as int), now),
            decreases self.sessions.len() - i,
        {
            push_overview_line(&mut out, &self.sessions[i], now);
            proof {
                assert(self.sessions@.take(i + 1).drop_last() =~= self.sessions@.take(i as int));
                assert(self.sessions@.take(i + 1).last() == self.sessions@[i as int]);
                assert(out@ =~= head + overview_lines(self.sessions@.take(i + 1), now));
            }
            i += 1;
        }
        assert(self.sessions@.take(i as int) =~= self.sessions@);
        out
    }

    /// The status message of the weekend at `now`, with the hint on how to
    /// subscribe where `extra` is set.
    pub fn weekend_msg_str(&self, extra: bool, now: i64) -> (r: String)
        ensures
            r@ == status_text(self@, extra, now),
    {
        let mut out = String::new();
        out.append("## Next Event:\n**");
        out.append(self.weekend.icon.as_str());
        out.append(" ");
        out.append(self.weekend.name.as_str());
        out.append("**");
        let ghost head = out@;
        assert(head =~= "## Next Event:\n**"@ + self.weekend.icon@ + " "@ + self.weekend.name@
            + "**"@);
        let mut i: usize = 0;
        assert(self.sessions@.take(0) =~= Seq::<Session>::empty());
        assert(out@ =~= head + status_lines(self.sessions@.take(0), now));
        while i < self.sessions.len()
            invariant
                i <= self.sessions.len(),
                out@ == head + status_lines(self.sessions@.take(i as int), now),
            decreases self.sessions.len() - i,
        {
            push_status_line(&mut out, &self.sessions[i], now);
            proof {
                assert(self.sessions@.take(i + 1).drop_last() =~= self.sessions@.take(i as int));
                assert(self.sessions@.take(i + 1).last() == self.sessions@[i as int]);
                assert(out@ =~= head + status_lines(self.sessions@.take(i + 1), now));
            }
            i += 1;
        }
        assert(self.sessions@.take(i as int) =~= self.sessions@);
        if extra {
            let ghost before = out@;
            out.append("\n\nUse <id:customize> to get the `");
            out.append(self.weekend.series.to_label());
            out.append("-notifications` role\n**Times are in your Timezone**");
            assert(out@ =~= before + role_hint(self.weekend.series));
        } else {
            assert(out@ =~= out@ + Seq::<char>::empty());
        }
        out
    }

    /// The calendar message of the weekend.
    pub fn calendar_str(&self) -> (r: String)
        ensures
            r@ == calendar_text(self@),
    {
        let mut out = String::new();
        out.append("## ");
        out.append(self.weekend.icon.as_str());
        out.append(" **");
        out.append(self.weekend.name.as_str());
        out.append("**");
        let ghost head = out@;
        assert(head =~= "## "@ + self.weekend.icon@ + " **"@ + self.weekend.name@ + "**"@);
        let mut i: usize = 0;
        assert(self.sessions@.take(0) =~= Seq::<Session>::empty());
        assert(out@ =~= head + calendar_lines(self.sessions@.take(0)));
        while i < self.sessions.len()
            invariant
                i <= self.sessions.len(),
                out@ == head + calendar_lines(self.sessions@.take(i as int)),
            decreases self.sessions.len() - i,
        {
            push_calendar_line(&mut out, &self.sessions[i]);
            proof {
                assert(self.sessions@.take(i + 1).drop_last() =~= self.sessions@.take(i as int));
                assert(self.sessions@.take(i + 1).last() == self.sessions@[i as int]);
                assert(out@ =~= head + calendar_lines(self.sessions@.take(i + 1)));
            }
            i += 1;
        }
        assert(self.sessions@.take(i as int) =~= self.sessions@);
        out
    }
}

/// The status message that is built around a weekend's overview.
pub fn persistent_message_str(weekend: &FullWeekend, now: i64) -> (r: String)
    ensures
        r@ == persistent_text(weekend@, now),
{
    let body = weekend.text(now);
    let mut out = String::new();
    out.append("## Next Event\n");
    out.append(body.as_str());
    out.append(
        "\n\nUse <id:customize> to get a notification when a session is live.\nTimes are in your timezone",
    );
    assert(out@ =~= persistent_text(weekend@, now));
    out
}

/// The announcement of a session.
pub fn notification_str(weekend: &Weekend, session: &Session, role: u64) -> (r: String)
    ensures
        r@ == notification_text(*weekend, *session, role),
{
    let name = session.pretty_name();
    let mut out = String::new();
    out.append("<@&");
    push_u64(&mut out, role);
    out.append(">\n");
    out.append(weekend.icon.as_str());
    out.append(" ");
    out.append(weekend.name.as_str());
    out.append(" ");
    out.append(name.as_str());
    out.append(" is starting: ");
    push_stamp(&mut out, session.date, "R");
    assert(out@ =~= notification_text(*weekend, *session, role));
    out
}

/// Appends a weekend's part of the calendar of several weekends.
fn push_multi_block(out: &mut String, w: &FullWeekend, now: i64)
    ensures
        final(out)@ == old(out)@ + multi_block(w@, now),
{
    out.append("## ");
    out.append(w.weekend.series.to_label());
    out.append(" ");
    push_i64(out, w.weekend.year as i64);
    out.append(" ");
    out.append(w.weekend.name.as_str());
    out.append("\n");
    let ghost head = out@;
    let mut i: usize = 0;
    assert(w.sessions@.take(0) =~= Seq::<Session>::empty());
    assert(out@ =~= head + multi_lines(w.sessions@.take(0), now));
    while i < w.sessions.len()
        invariant
            i <= w.sessions.len(),
            out@ == head + multi_lines(w.sessions@.take(i as int), now),
        decreases w.sessions.len() - i,
    {
        push_multi_line(out, &w.sessions[i], now);
        proof {
            assert(w.sessions@.take(i + 1).drop_last() =~= w.sessions@.take(i as int));
            assert(w.sessions@.take(i + 1).last() == w.sessions@[i as int]);
            assert(out@ =~= head + multi_lines(w.sessions@.take(i + 1), now));
        }
        i += 1;
    }
    assert(w.sessions@.take(i as int) =~= w.sessions@);
    out.append("\n");
    assert(out@ =~= old(out)@ + multi_block(w@, now));
}

/// The calendar of several weekends in one message, at `now`.
pub fn create_multi_message(weekends: &Vec<FullWeekend>, now: i64) -> (r: String)
    ensures
        r@ == multi_text(schedules(weekends@), now),
{
    let mut out = String::new();
    let ghost all = schedules(weekends@);
    let mut i: usize = 0;
    assert(all.take(0) =~= Seq::<Schedule>::empty());
    assert(out@ =~= multi_blocks(all.take(0), now));
    while i < weekends.len()
        invariant
            i <= weekends.len(),
            all == schedules(weekends@),
            out@ == multi_blocks(all.take(i as int), now),
        decreases weekends.len() - i,
    {
        push_multi_block(&mut out, &weekends[i], now);
        proof {
            assert(all.take(i + 1).drop_last() =~= all.take(i as int));
            assert(all.take(i + 1).last() == weekends@[i as int]@);
        }
        i += 1;
    }
    assert(all.take(i as int) =~= all);
    out.append(
        "To get a notification once a session goes live, go to <id:customize> and select the series for which you want to be notified.\nTimes are displayed in your timezone.",
    );
    out
}

} // verus!
