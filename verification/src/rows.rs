//! Records as the store takes them: numbers as text, points in time as
//! RFC 3339 dates.

use vstd::prelude::*;
use crate::error::Error;
use crate::model::{
    MessageKind, NotificationSetting, Series, SessionKind, SessionStatus, WeekendStatus,
};
use crate::record::{seconds_of, timestamp, BotMessage, NewMessage, Session, Weekend};
use crate::text::{decimal_nat, parse_u64, parsed_u64, u64_text};

verus! {

/// The RFC 3339 date, in UTC and to the second, of a point in time given in
/// seconds since the epoch; none where no date stands for it.
pub uninterp spec fn rfc3339_text(secs: i64) -> Option<Seq<char>>;

/// Calls `chrono::DateTime::from_timestamp` and, on the date it gives,
/// `to_rfc3339_opts` with whole seconds and `Z` for UTC. The date's text
/// depends on the seconds alone; the call gives none exactly where the
/// seconds are outside the range of dates.
#[verifier::external_body]
fn rfc3339(secs: i64) -> (r: Option<String>)
    ensures
        match r {
            Some(s) => rfc3339_text(secs) == Some(s@),
            None => rfc3339_text(secs).is_none(),
        },
{
    match chrono::DateTime::from_timestamp(secs, 0) {
        Some(date) => Some(date.to_rfc3339_opts(chrono::SecondsFormat::Secs, true)),
        None => None,
    }
}

/// A stored number as a byte: a number that is no byte counts as the
/// greatest byte, which stands for no kind or state of its own.
pub open spec fn byte_of(number: i64) -> u8 {
    if 0 <= number <= 255 {
        number as u8
    } else {
        255
    }
}

/// A stored number as a byte.
pub fn stored_byte(number: i64) -> (r: u8)
    ensures
        r == byte_of(number),
{
    if 0 <= number && number <= 255 {
        number as u8
    } else {
        255
    }
}

/// A record of a posted message as the store takes and gives it.
#[derive(Debug)]
pub struct MessageRow {
    pub channel: String,
    pub message: String,
    pub kind: i64,
    pub posted: Option<String>,
    pub series: i64,
    pub expiry: Option<String>,
    pub hash: Option<String>,
}

/// What a `MessageRow` holds.
pub struct RowView {
    pub channel: Seq<char>,
    pub message: Seq<char>,
    pub kind: i64,
    pub posted: Option<Seq<char>>,
    pub series: i64,
    pub expiry: Option<Seq<char>>,
    pub hash: Option<Seq<char>>,
}

/// The text behind a text that may be missing.
pub open spec fn text_of(text: Option<String>) -> Option<Seq<char>> {
    match text {
        Some(s) => Some(s@),
        None => None,
    }
}

impl View for MessageRow {
    type V = RowView;

    open spec fn view(&self) -> RowView {
        RowView {
            channel: self.channel@,
            message: self.message@,
            kind: self.kind,
            posted: text_of(self.posted),
            series: self.series,
            expiry: text_of(self.expiry),
            hash: text_of(self.hash),
        }
    }
}

/// The row of a message that the store has not taken yet, once its dates
/// are written out.
pub open spec fn row_with(m: NewMessage, posted: Seq<char>, expiry: Option<Seq<char>>) -> RowView {
    RowView {
        channel: decimal_nat(m.channel as nat),
        message: decimal_nat(m.message as nat),
        kind: m.kind.number() as i64,
        posted: Some(posted),
        series: m.series.number() as i64,
        expiry,
        hash: match m.hash {
            Some(h) => Some(decimal_nat(h as nat)),
            None => None,
        },
    }
}

/// The date of a point in time given in milliseconds.
pub open spec fn date_text(millis: i64) -> Option<Seq<char>> {
    rfc3339_text(seconds_of(millis as int) as i64)
}

/// The row of a message that the store has not taken yet: none where the
/// time of posting or the expiry has no date.
pub open spec fn row_of(m: NewMessage) -> Option<RowView> {
    match date_text(m.posted) {
        None => None,
        Some(posted) => match m.expiry {
            None => Some(row_with(m, posted, None)),
            Some(at) => match date_text(at) {
                None => None,
                Some(expiry) => Some(row_with(m, posted, Some(expiry))),
            },
        },
    }
}

/// The row of a message that the store has not taken yet, once its dates
/// are written out.
pub fn build_row(m: &NewMessage, posted: String, expiry: Option<String>) -> (r: MessageRow)
    ensures
        r@ == row_with(*m, posted@, text_of(expiry)),
{
    MessageRow {
        channel: u64_text(m.channel),
        message: u64_text(m.message),
        kind: m.kind.i8() as i64,
        posted: Some(posted),
        series: m.series.i8() as i64,
        expiry,
        hash: match m.hash {
            Some(h) => Some(u64_text(h)),
            None => None,
        },
    }
}

/// The date of a point in time given in milliseconds. Fails where no date
/// stands for it.
pub fn date_string(millis: i64) -> (r: Result<String, Error>)
    ensures
        match r {
            Ok(s) => date_text(millis) == Some(s@),
            Err(e) => date_text(millis).is_none() && e == Error::OutOfRange,
        },
{
    match rfc3339(timestamp(millis)) {
        Some(s) => Ok(s),
        None => Err(Error::OutOfRange),
    }
}

/// The row of a message that the store has not taken yet. Fails where the
/// time of posting or the expiry has no date.
pub fn message_row(m: &NewMessage) -> (r: Result<MessageRow, Error>)
    ensures
        match r {
            Ok(row) => row_of(*m) == Some(row@),
            Err(e) => row_of(*m).is_none() && e == Error::OutOfRange,
        },
{
    let posted = match date_string(m.posted) {
        Ok(s) => s,
        Err(e) => {
            return Err(e);
        },
    };
    let expiry = match m.expiry {
        None => None,
        Some(at) => match date_string(at) {
            Ok(s) => Some(s),
            Err(e) => {
                return Err(e);
            },
        },
    };
    Ok(build_row(m, posted, expiry))
}

/// The date from which on a message counts as expired: `date`, or `now`
/// where none is given.
pub fn mark_message_expired(date: Option<i64>, now: i64) -> (r: Result<String, Error>)
    ensures
        match r {
            Ok(s) => date_text(
                match date {
                    Some(at) => at,
                    None => now,
                },
            ) == Some(s@),
            Err(e) => date_text(
                match date {
                    Some(at) => at,
                    None => now,
                },
            ).is_none() && e == Error::OutOfRange,
        },
{
    let at: i64 = match date {
        Some(at) => at,
        None => now,
    };
    date_string(at)
}

/// The point in time, in milliseconds since the epoch, that an RFC 3339
/// date stands for; none where the text is no such date.
pub uninterp spec fn rfc3339_millis(text: Seq<char>) -> Option<i64>;

/// Calls `chrono::DateTime::parse_from_rfc3339` and, on the date it gives,
/// `timestamp_millis`. What comes back depends on the text alone; the call
/// gives none exactly where the parser refuses the text.
#[verifier::external_body]
fn parse_rfc3339(text: &str) -> (r: Option<i64>)
    ensures
        r == rfc3339_millis(text@),
{
    match chrono::DateTime::parse_from_rfc3339(text) {
        Ok(date) => Some(date.timestamp_millis()),
        Err(_) => None,
    }
}

/// The point in time that a date stands for. Fails where the text is no
/// date.
pub fn read_date(text: &str) -> (r: Result<i64, Error>)
    ensures
        r == (match rfc3339_millis(text@) {
            Some(at) => Ok::<i64, Error>(at),
            None => Err(Error::ParseDate),
        }),
{
    match parse_rfc3339(text) {
        Some(at) => Ok(at),
        None => Err(Error::ParseDate),
    }
}

/// The record that a row stands for, once its dates are read: the channel,
/// the handle and the fingerprint are read as numbers, and a row in which
/// one of them is no number is refused.
pub open spec fn record_with(id: i64, row: RowView, posted: i64, expiry: Option<i64>) -> Result<
    BotMessage,
    Error,
> {
    let hash = match row.hash {
        Some(text) => parsed_u64(text),
        None => None,
    };
    if parsed_u64(row.channel).is_none() || parsed_u64(row.message).is_none() || (
    row.hash.is_some() && hash.is_none()) {
        Err(Error::ParseInt)
    } else {
        Ok(
            BotMessage {
                id,
                channel: parsed_u64(row.channel).unwrap(),
                message: parsed_u64(row.message).unwrap(),
                kind: MessageKind::of_number(byte_of(row.kind)),
                posted,
                expiry,
                hash,
                series: Series::of_number(byte_of(row.series)),
            },
        )
    }
}

/// When a row was posted: at the date it carries, or at the epoch where it
/// carries none; nothing where what it carries is no date.
pub open spec fn posted_of(row: RowView) -> Option<i64> {
    match row.posted {
        None => Some(0),
        Some(text) => rfc3339_millis(text),
    }
}

/// The record that a row stands for: a row whose time of posting or whose
/// expiry is no date is refused, then one whose numbers are none.
pub open spec fn record_of_row(id: i64, row: RowView) -> Result<BotMessage, Error> {
    match posted_of(row) {
        None => Err(Error::ParseDate),
        Some(posted) => match row.expiry {
            None => record_with(id, row, posted, None),
            Some(text) => match rfc3339_millis(text) {
                None => Err(Error::ParseDate),
                Some(at) => record_with(id, row, posted, Some(at)),
            },
        },
    }
}

/// The record that a row stands for, once its dates are read. Fails where
/// the channel, the handle or the fingerprint is no number.
pub fn build_record(id: i64, row: &MessageRow, posted: i64, expiry: Option<i64>) -> (r: Result<
    BotMessage,
    Error,
>)
    ensures
        r == record_with(id, row@, posted, expiry),
{
    let channel: u64 = match parse_u64(row.channel.as_str()) {
        Some(n) => n,
        None => {
            return Err(Error::ParseInt);
        },
    };
    let message: u64 = match parse_u64(row.message.as_str()) {
        Some(n) => n,
        None => {
            return Err(Error::ParseInt);
        },
    };
    let hash: Option<u64> = match &row.hash {
        None => None,
        Some(text) => match parse_u64(text.as_str()) {
            Some(n) => Some(n),
            None => {
                return Err(Error::ParseInt);
            },
        },
    };
    let kind: MessageKind = MessageKind::from(stored_byte(row.kind));
    let series: Series = Series::from(stored_byte(row.series));
    Ok(BotMessage { id, channel, message, kind, posted, expiry, hash, series })
}

/// The record that a row stands for. Fails where a date or a number of
/// the row cannot be read.
pub fn read_row(id: i64, row: &MessageRow) -> (r: Result<BotMessage, Error>)
    ensures
        r == record_of_row(id, row@),
{
    let posted: i64 = match &row.posted {
        None => 0,
        Some(text) => match read_date(text.as_str()) {
            Ok(at) => at,
            Err(e) => {
                return Err(e);
            },
        },
    };
    let expiry: Option<i64> = match &row.expiry {
        None => None,
        Some(text) => match read_date(text.as_str()) {
            Ok(at) => Some(at),
            Err(e) => {
                return Err(e);
            },
        },
    };
    build_record(id, row, posted, expiry)
}

/// A weekend as the store gives it.
#[derive(Debug)]
pub struct WeekendRow {
    pub id: i64,
    pub series: i64,
    pub name: String,
    pub icon: String,
    pub year: i64,
    pub start_date: String,
    pub status: i64,
}

/// A session as the store gives it.
#[derive(Debug)]
pub struct SessionRow {
    pub id: i64,
    pub weekend: i64,
    pub kind: String,
    pub status: i64,
    pub notify: i64,
    pub duration: i64,
    pub start_date: String,
    pub number: Option<i64>,
    pub title: Option<String>,
}

/// Whether a number can be the id of a weekend or a session.
pub open spec fn fits_id(number: i64) -> bool {
    i32::MIN <= number <= i32::MAX
}

/// Whether a number can be a year or the number of a session.
pub open spec fn fits_short(number: i64) -> bool {
    i16::MIN <= number <= i16::MAX
}

/// The weekend that a row stands for, once its start is read. A row whose
/// id or year does not fit is refused.
pub open spec fn weekend_with(row: WeekendRow, start: i64) -> Result<Weekend, Error> {
    if !fits_id(row.id) || !fits_short(row.year) {
        Err(Error::Range)
    } else {
        Ok(
            Weekend {
                id: row.id as i32,
                series: Series::of_number(byte_of(row.series)),
                name: row.name,
                icon: row.icon,
                year: row.year as i16,
                start_date: start,
                status: WeekendStatus::of_number(byte_of(row.status)),
            },
        )
    }
}

/// The weekend that a row stands for: a row whose start is no date is
/// refused, then one whose numbers do not fit.
pub open spec fn weekend_of_row(row: WeekendRow) -> Result<Weekend, Error> {
    match rfc3339_millis(row.start_date@) {
        None => Err(Error::ParseDate),
        Some(start) => weekend_with(row, start),
    }
}

/// The session that a row stands for, once its start is read. A row whose
/// id, weekend or number does not fit is refused.
pub open spec fn session_with(row: SessionRow, start: i64) -> Result<Session, Error> {
    if !fits_id(row.id) || !fits_id(row.weekend) || (row.number.is_some() && !fits_short(
        row.number.unwrap(),
    )) {
        Err(Error::Range)
    } else {
        Ok(
            Session {
                id: row.id as i32,
                weekend: row.weekend as i32,
                kind: SessionKind::of_name(row.kind@),
                status: SessionStatus::of_number(byte_of(row.status)),
                notify: NotificationSetting::of_number(byte_of(row.notify)),
                duration: row.duration,
                date: start,
                number: match row.number {
                    Some(n) => Some(n as i16),
                    None => None,
                },
                title: row.title,
            },
        )
    }
}

/// The session that a row stands for: a row whose start is no date is
/// refused, then one whose numbers do not fit.
pub open spec fn session_of_row(row: SessionRow) -> Result<Session, Error> {
    match rfc3339_millis(row.start_date@) {
        None => Err(Error::ParseDate),
        Some(start) => session_with(row, start),
    }
}

/// The weekend that a row stands for, once its start is read. Fails where
/// the id or the year does not fit.
pub fn build_weekend(row: WeekendRow, start: i64) -> (r: Result<Weekend, Error>)
    ensures
        r == weekend_with(row, start),
{
    if row.id < -2147483648 || row.id > 2147483647 || row.year < -32768 || row.year > 32767 {
        return Err(Error::Range);
    }
    Ok(
        Weekend {
            id: row.id as i32,
            series: Series::from(stored_byte(row.series)),
            name: row.name,
            icon: row.icon,
            year: row.year as i16,
            start_date: start,
            status: WeekendStatus::from(stored_byte(row.status)),
        },
    )
}

/// The weekend that a row stands for. Fails where the start is no date or
/// a number does not fit.
pub fn read_weekend(row: WeekendRow) -> (r: Result<Weekend, Error>)
    ensures
        r == weekend_of_row(row),
{
    match read_date(row.start_date.as_str()) {
        Ok(start) => build_weekend(row, start),
        Err(e) => Err(e),
    }
}

/// The session that a row stands for, once its start is read. Fails where
/// the id, the weekend or the number does not fit.
pub fn build_session(row: SessionRow, start: i64) -> (r: Result<Session, Error>)
    ensures
        r == session_with(row, start),
{
    if row.id < -2147483648 || row.id > 2147483647 || row.weekend < -2147483648 || row.weekend
        > 2147483647 {
        return Err(Error::Range);
    }
    let number: Option<i16> = match row.number {
        None => None,
        Some(n) => {
            if n < -32768 || n > 32767 {
                return Err(Error::Range);
            }
            Some(n as i16)
        },
    };
    Ok(
        Session {
            id: row.id as i32,
            weekend: row.weekend as i32,
            kind: SessionKind::from_name(row.kind.as_str()),
            status: SessionStatus::from(stored_byte(row.status)),
            notify: NotificationSetting::from(stored_byte(row.notify)),
            duration: row.duration,
            date: start,
            number,
            title: row.title,
        },
    )
}

/// The session that a row stands for. Fails where the start is no date or
/// a number does not fit.
pub fn read_session(row: SessionRow) -> (r: Result<Session, Error>)
    ensures
        r == session_of_row(row),
{
    match read_date(row.start_date.as_str()) {
        Ok(start) => build_session(row, start),
        Err(e) => Err(e),
    }
}

} // verus!
