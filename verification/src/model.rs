//! The kinds and states of the calendar: series, the status of weekends and
//! sessions, what a session is and whether it is announced, and the kinds of
//! posted messages. Each has the name and, where it has one, the number under
//! which it is stored.

use vstd::prelude::*;
use crate::text::same_text;

verus! {

/// An independently scheduled championship.
#[derive(Clone, Copy, Debug, PartialEq, Eq, Structural, Hash)]
pub enum Series {
    F1,
    F2,
    F3,
    F1Academy,
    Unsupported,
}

impl Series {
    /// The name under which a series is stored; `Unsupported` has none.
    pub open spec fn name(self) -> Seq<char> {
        match self {
            Series::F1 => "F1"@,
            Series::F2 => "F2"@,
            Series::F3 => "F3"@,
            Series::F1Academy => "F1Academy"@,
            Series::Unsupported => Seq::empty(),
        }
    }

    /// The series that a stored name stands for; any other text stands for
    /// `Unsupported`.
    pub open spec fn of_name(value: Seq<char>) -> Series {
        if value == "F1"@ {
            Series::F1
        } else if value == "F2"@ {
            Series::F2
        } else if value == "F3"@ {
            Series::F3
        } else if value == "F1Academy"@ {
            Series::F1Academy
        } else {
            Series::Unsupported
        }
    }

    /// The series that a stored number stands for; any other number stands
    /// for `Unsupported`.
    pub open spec fn of_number(value: u8) -> Series {
        match value {
            0 => Series::F1,
            1 => Series::F2,
            2 => Series::F3,
            3 => Series::F1Academy,
            _ => Series::Unsupported,
        }
    }

    /// The number under which a series is stored.
    pub open spec fn number(self) -> i8 {
        match self {
            Series::F1 => 0,
            Series::F2 => 1,
            Series::F3 => 2,
            Series::F1Academy => 3,
            Series::Unsupported => 4,
        }
    }

    /// The name under which the series is stored.
    pub fn str(self) -> (r: &'static str)
        requires
            self != Series::Unsupported,
        ensures
            r@ == self.name(),
    {
        match self {
            Series::F1 => "F1",
            Series::F2 => "F2",
            Series::F3 => "F3",
            _ => "F1Academy",
        }
    }

    /// The number under which the series is stored.
    pub fn i8(self) -> (r: i8)
        ensures
            r == self.number(),
    {
        match self {
            Series::F1 => 0,
            Series::F2 => 1,
            Series::F3 => 2,
            Series::F1Academy => 3,
            Series::Unsupported => 4,
        }
    }

    /// The series that a stored name stands for.
    pub fn from_name(value: &str) -> (r: Series)
        ensures
            r == Series::of_name(value@),
    {
        if same_text(value, "F1") {
            Series::F1
        } else if same_text(value, "F2") {
            Series::F2
        } else if same_text(value, "F3") {
            Series::F3
        } else if same_text(value, "F1Academy") {
            Series::F1Academy
        } else {
            Series::Unsupported
        }
    }

    /// The name by which a series is shown to readers.
    pub open spec fn label(self) -> Seq<char> {
        match self {
            Series::Unsupported => "Unsupported"@,
            _ => self.name(),
        }
    }

    /// The name by which the series is shown to readers.
    pub fn to_label(self) -> (r: &'static str)
        ensures
            r@ == self.label(),
    {
        match self {
            Series::Unsupported => "Unsupported",
            _ => self.str(),
        }
    }
}

impl From<u8> for Series {
    fn from(value: u8) -> (r: Series) {
        match value {
            0 => Series::F1,
            1 => Series::F2,
            2 => Series::F3,
            3 => Series::F1Academy,
            _ => Series::Unsupported,
        }
    }
}

impl vstd::std_specs::convert::FromSpecImpl<u8> for Series {
    open spec fn obeys_from_spec() -> bool {
        true
    }

    open spec fn from_spec(value: u8) -> Series {
        Series::of_number(value)
    }
}

impl From<String> for Series {
    fn from(value: String) -> (r: Series) {
        Series::from_name(value.as_str())
    }
}

impl vstd::std_specs::convert::FromSpecImpl<String> for Series {
    open spec fn obeys_from_spec() -> bool {
        true
    }

    open spec fn from_spec(value: String) -> Series {
        Series::of_name(value@)
    }
}

/// Where a weekend stands.
#[derive(Clone, Copy, Debug, PartialEq, Eq, Structural, Hash)]
pub enum WeekendStatus {
    Open,
    Cancelled,
    Done,
}

impl WeekendStatus {
    /// The name under which a status is stored.
    pub open spec fn name(self) -> Seq<char> {
        match self {
            WeekendStatus::Open => "Open"@,
            WeekendStatus::Cancelled => "Cancelled"@,
            WeekendStatus::Done => "Done"@,
        }
    }

    /// The status that a stored name stands for; any other text stands for
    /// `Done`.
    pub open spec fn of_name(value: Seq<char>) -> WeekendStatus {
        if value == "Open"@ {
            WeekendStatus::Open
        } else if value == "Cancelled"@ {
            WeekendStatus::Cancelled
        } else {
            WeekendStatus::Done
        }
    }

    /// The status that a stored number stands for; any other number stands
    /// for `Done`.
    pub open spec fn of_number(value: u8) -> WeekendStatus {
        match value {
            0 => WeekendStatus::Open,
            1 => WeekendStatus::Cancelled,
            _ => WeekendStatus::Done,
        }
    }

    /// The number under which a status is stored.
    pub open spec fn number(self) -> i8 {
        match self {
            WeekendStatus::Open => 0,
            WeekendStatus::Cancelled => 1,
            WeekendStatus::Done => 2,
        }
    }

    /// The name under which the status is stored.
    pub fn str(self) -> (r: &'static str)
        ensures
            r@ == self.name(),
    {
        match self {
            WeekendStatus::Open => "Open",
            WeekendStatus::Cancelled => "Cancelled",
            WeekendStatus::Done => "Done",
        }
    }

    /// The number under which the status is stored.
    pub fn i8(self) -> (r: i8)
        ensures
            r == self.number(),
    {
        match self {
            WeekendStatus::Open => 0,
            WeekendStatus::Cancelled => 1,
            WeekendStatus::Done => 2,
        }
    }

    /// The status that a stored name stands for.
    pub fn from_name(value: &str) -> (r: WeekendStatus)
        ensures
            r == WeekendStatus::of_name(value@),
    {
        if same_text(value, "Open") {
            WeekendStatus::Open
        } else if same_text(value, "Cancelled") {
            WeekendStatus::Cancelled
        } else {
            WeekendStatus::Done
        }
    }

    /// Whether a weekend with this status never opens again: it is `Done` or
    /// `Cancelled`.
    pub open spec fn is_final(self) -> bool {
        self == WeekendStatus::Done || self == WeekendStatus::Cancelled
    }
}

impl From<u8> for WeekendStatus {
    fn from(value: u8) -> (r: WeekendStatus) {
        match value {
            0 => WeekendStatus::Open,
            1 => WeekendStatus::Cancelled,
            _ => WeekendStatus::Done,
        }
    }
}

impl vstd::std_specs::convert::FromSpecImpl<u8> for WeekendStatus {
    open spec fn obeys_from_spec() -> bool {
        true
    }

    open spec fn from_spec(value: u8) -> WeekendStatus {
        WeekendStatus::of_number(value)
    }
}

impl From<String> for WeekendStatus {
    fn from(value: String) -> (r: WeekendStatus) {
        WeekendStatus::from_name(value.as_str())
    }
}

impl vstd::std_specs::convert::FromSpecImpl<String> for WeekendStatus {
    open spec fn obeys_from_spec() -> bool {
        true
    }

    open spec fn from_spec(value: String) -> WeekendStatus {
        WeekendStatus::of_name(value@)
    }
}

/// What is driven in a session. A sprint race is written `Sprint` and read
/// back from `SprintRace`.
#[derive(Clone, Copy, Debug, PartialEq, Eq, Structural, Hash)]
pub enum SessionKind {
    Custom,
    Practice,
    Qualifying,
    Race,
    SprintRace,
    SprintQuali,
    PreSeasonTest,
    FeatureRace,
    Unsupported,
}

impl SessionKind {
    /// The name under which a kind is stored; `Unsupported` has none.
    pub open spec fn name(self) -> Seq<char> {
        match self {
            SessionKind::Custom => "Custom"@,
            SessionKind::Practice => "Practice"@,
            SessionKind::Qualifying => "Qualifying"@,
            SessionKind::Race => "Race"@,
            SessionKind::SprintRace => "Sprint"@,
            SessionKind::SprintQuali => "SprintQuali"@,
            SessionKind::PreSeasonTest => "PreSeasonTest"@,
            SessionKind::FeatureRace => "FeatureRace"@,
            SessionKind::Unsupported => Seq::empty(),
        }
    }

    /// The kind that a stored name stands for; any other text stands for
    /// `Unsupported`.
    pub open spec fn of_name(value: Seq<char>) -> SessionKind {
        if value == "Custom"@ {
            SessionKind::Custom
        } else if value == "Practice"@ {
            SessionKind::Practice
        } else if value == "Qualifying"@ {
            SessionKind::Qualifying
        } else if value == "Race"@ {
            SessionKind::Race
        } else if value == "SprintRace"@ {
            SessionKind::SprintRace
        } else if value == "SprintQuali"@ {
            SessionKind::SprintQuali
        } else if value == "PreSeasonTest"@ {
            SessionKind::PreSeasonTest
        } else if value == "FeatureRace"@ {
            SessionKind::FeatureRace
        } else {
            SessionKind::Unsupported
        }
    }

    /// The name under which the kind is stored.
    pub fn str(self) -> (r: &'static str)
        requires
            self != SessionKind::Unsupported,
        ensures
            r@ == self.name(),
    {
        match self {
            SessionKind::Custom => "Custom",
            SessionKind::Practice => "Practice",
            SessionKind::Qualifying => "Qualifying",
            SessionKind::Race => "Race",
            SessionKind::SprintRace => "Sprint",
            SessionKind::SprintQuali => "SprintQuali",
            SessionKind::PreSeasonTest => "PreSeasonTest",
            _ => "FeatureRace",
        }
    }

    /// The kind that a stored name stands for.
    pub fn from_name(value: &str) -> (r: SessionKind)
        ensures
            r == SessionKind::of_name(value@),
    {
        if same_text(value, "Custom") {
            SessionKind::Custom
        } else if same_text(value, "Practice") {
            SessionKind::Practice
        } else if same_text(value, "Qualifying") {
            SessionKind::Qualifying
        } else if same_text(value, "Race") {
            SessionKind::Race
        } else if same_text(value, "SprintRace") {
            SessionKind::SprintRace
        } else if same_text(value, "SprintQuali") {
            SessionKind::SprintQuali
        } else if same_text(value, "PreSeasonTest") {
            SessionKind::PreSeasonTest
        } else if same_text(value, "FeatureRace") {
            SessionKind::FeatureRace
        } else {
            SessionKind::Unsupported
        }
    }

    /// The words by which a kind of session is shown to readers.
    pub open spec fn label(self) -> Seq<char> {
        match self {
            SessionKind::Custom => ""@,
            SessionKind::Practice => "FP"@,
            SessionKind::Qualifying => "Qualifying"@,
            SessionKind::Race => "Race"@,
            SessionKind::SprintRace => "Sprint Race"@,
            SessionKind::SprintQuali => "Sprint Shootout"@,
            SessionKind::PreSeasonTest => "Pre-Season Test"@,
            SessionKind::FeatureRace => "Feature Race"@,
            SessionKind::Unsupported => "Unsupported"@,
        }
    }

    /// The words by which the kind of session is shown to readers.
    pub fn to_label(self) -> (r: &'static str)
        ensures
            r@ == self.label(),
    {
        match self {
            SessionKind::Custom => "",
            SessionKind::Practice => "FP",
            SessionKind::Qualifying => "Qualifying",
            SessionKind::Race => "Race",
            SessionKind::SprintRace => "Sprint Race",
            SessionKind::SprintQuali => "Sprint Shootout",
            SessionKind::PreSeasonTest => "Pre-Season Test",
            SessionKind::FeatureRace => "Feature Race",
            SessionKind::Unsupported => "Unsupported",
        }
    }
}

impl From<String> for SessionKind {
    fn from(value: String) -> (r: SessionKind) {
        SessionKind::from_name(value.as_str())
    }
}

impl vstd::std_specs::convert::FromSpecImpl<String> for SessionKind {
    open spec fn obeys_from_spec() -> bool {
        true
    }

    open spec fn from_spec(value: String) -> SessionKind {
        SessionKind::of_name(value@)
    }
}

/// Where a session stands. `Finished` is stored under the name `Done`.
#[derive(Clone, Copy, Debug, PartialEq, Eq, Structural, Hash)]
pub enum SessionStatus {
    Open,
    Delayed,
    Cancelled,
    Finished,
    Unsupported,
}

impl SessionStatus {
    /// The name under which a status is stored; `Unsupported` has none.
    pub open spec fn name(self) -> Seq<char> {
        match self {
            SessionStatus::Open => "Open"@,
            SessionStatus::Delayed => "Delayed"@,
            SessionStatus::Cancelled => "Cancelled"@,
            SessionStatus::Finished => "Done"@,
            SessionStatus::Unsupported => Seq::empty(),
        }
    }

    /// The status that a stored name stands for; any other text stands for
    /// `Unsupported`.
    pub open spec fn of_name(value: Seq<char>) -> SessionStatus {
        if value == "Open"@ {
            SessionStatus::Open
        } else if value == "Delayed"@ {
            SessionStatus::Delayed
        } else if value == "Cancelled"@ {
            SessionStatus::Cancelled
        } else if value == "Done"@ {
            SessionStatus::Finished
        } else {
            SessionStatus::Unsupported
        }
    }

    /// The status that a stored number stands for; any other number stands
    /// for `Unsupported`.
    pub open spec fn of_number(value: u8) -> SessionStatus {
        match value {
            0 => SessionStatus::Open,
            1 => SessionStatus::Delayed,
            2 => SessionStatus::Cancelled,
            3 => SessionStatus::Finished,
            _ => SessionStatus::Unsupported,
        }
    }

    /// The number under which a status is stored.
    pub open spec fn number(self) -> i8 {
        match self {
            SessionStatus::Open => 0,
            SessionStatus::Delayed => 1,
            SessionStatus::Cancelled => 2,
            SessionStatus::Finished => 3,
            SessionStatus::Unsupported => 4,
        }
    }

    /// The name under which the status is stored.
    pub fn str(self) -> (r: &'static str)
        requires
            self != SessionStatus::Unsupported,
        ensures
            r@ == self.name(),
    {
        match self {
            SessionStatus::Open => "Open",
            SessionStatus::Delayed => "Delayed",
            SessionStatus::Cancelled => "Cancelled",
            _ => "Done",
        }
    }

    /// The number under which the status is stored.
    pub fn i8(self) -> (r: i8)
        ensures
            r == self.number(),
    {
        match self {
            SessionStatus::Open => 0,
            SessionStatus::Delayed => 1,
            SessionStatus::Cancelled => 2,
            SessionStatus::Finished => 3,
            SessionStatus::Unsupported => 4,
        }
    }

    /// The status that a stored name stands for.
    pub fn from_name(value: &str) -> (r: SessionStatus)
        ensures
            r == SessionStatus::of_name(value@),
    {
        if same_text(value, "Open") {
            SessionStatus::Open
        } else if same_text(value, "Delayed") {
            SessionStatus::Delayed
        } else if same_text(value, "Cancelled") {
            SessionStatus::Cancelled
        } else if same_text(value, "Done") {
            SessionStatus::Finished
        } else {
            SessionStatus::Unsupported
        }
    }

    /// Whether a session with this status is still to be run: it is `Open`
    /// or `Delayed`.
    pub open spec fn is_pending(self) -> bool {
        self == SessionStatus::Open || self == SessionStatus::Delayed
    }

    /// Whether a session with this status is over: it is `Finished` or
    /// `Cancelled`.
    pub open spec fn is_terminal(self) -> bool {
        self == SessionStatus::Finished || self == SessionStatus::Cancelled
    }

    /// The steps a session's status may take: an open session may be
    /// delayed, finished or cancelled, a delayed one finished or cancelled;
    /// nothing leaves any other status.
    pub open spec fn may_become(self, next: SessionStatus) -> bool {
        match self {
            SessionStatus::Open => next == SessionStatus::Delayed || next.is_terminal(),
            SessionStatus::Delayed => next.is_terminal(),
            _ => false,
        }
    }

    /// Whether a session with this status is still to be run.
    pub fn pending(self) -> (r: bool)
        ensures
            r == self.is_pending(),
    {
        match self {
            SessionStatus::Open => true,
            SessionStatus::Delayed => true,
            _ => false,
        }
    }

    /// Whether a session with this status is over.
    pub fn terminal(self) -> (r: bool)
        ensures
            r == self.is_terminal(),
    {
        match self {
            SessionStatus::Finished => true,
            SessionStatus::Cancelled => true,
            _ => false,
        }
    }
}

impl From<u8> for SessionStatus {
    fn from(value: u8) -> (r: SessionStatus) {
        match value {
            0 => SessionStatus::Open,
            1 => SessionStatus::Delayed,
            2 => SessionStatus::Cancelled,
            3 => SessionStatus::Finished,
            _ => SessionStatus::Unsupported,
        }
    }
}

impl vstd::std_specs::convert::FromSpecImpl<u8> for SessionStatus {
    open spec fn obeys_from_spec() -> bool {
        true
    }

    open spec fn from_spec(value: u8) -> SessionStatus {
        SessionStatus::of_number(value)
    }
}

impl From<String> for SessionStatus {
    fn from(value: String) -> (r: SessionStatus) {
        SessionStatus::from_name(value.as_str())
    }
}

impl vstd::std_specs::convert::FromSpecImpl<String> for SessionStatus {
    open spec fn obeys_from_spec() -> bool {
        true
    }

    open spec fn from_spec(value: String) -> SessionStatus {
        SessionStatus::of_name(value@)
    }
}

impl From<SessionStatus> for u8 {
    fn from(value: SessionStatus) -> (r: u8) {
        match value {
            SessionStatus::Open => 0,
            SessionStatus::Delayed => 1,
            SessionStatus::Cancelled => 2,
            SessionStatus::Finished => 3,
            SessionStatus::Unsupported => 4,
        }
    }
}

impl vstd::std_specs::convert::FromSpecImpl<SessionStatus> for u8 {
    open spec fn obeys_from_spec() -> bool {
        true
    }

    open spec fn from_spec(value: SessionStatus) -> u8 {
        match value {
            SessionStatus::Open => 0,
            SessionStatus::Delayed => 1,
            SessionStatus::Cancelled => 2,
            SessionStatus::Finished => 3,
            SessionStatus::Unsupported => 4,
        }
    }
}

/// Whether a session's start is announced.
#[derive(Clone, Copy, Debug, PartialEq, Eq, Structural, Hash)]
pub enum NotificationSetting {
    Notify,
    Ignore,
}

impl NotificationSetting {
    /// The name under which a setting is stored.
    pub open spec fn name(self) -> Seq<char> {
        match self {
            NotificationSetting::Notify => "Notify"@,
            NotificationSetting::Ignore => "Ignore"@,
        }
    }

    /// The setting that a stored name stands for; any other text stands for
    /// `Ignore`.
    pub open spec fn of_name(value: Seq<char>) -> NotificationSetting {
        if value == "Notify"@ {
            NotificationSetting::Notify
        } else {
            NotificationSetting::Ignore
        }
    }

    /// The setting that a stored number stands for; any other number stands
    /// for `Ignore`.
    pub open spec fn of_number(value: u8) -> NotificationSetting {
        match value {
            0 => NotificationSetting::Notify,
            _ => NotificationSetting::Ignore,
        }
    }

    /// The name under which the setting is stored.
    pub fn str(self) -> (r: &'static str)
        ensures
            r@ == self.name(),
    {
        match self {
            NotificationSetting::Notify => "Notify",
            NotificationSetting::Ignore => "Ignore",
        }
    }

    /// The setting that a stored name stands for.
    pub fn from_name(value: &str) -> (r: NotificationSetting)
        ensures
            r == NotificationSetting::of_name(value@),
    {
        if same_text(value, "Notify") {
            NotificationSetting::Notify
        } else {
            NotificationSetting::Ignore
        }
    }
}

impl From<u8> for NotificationSetting {
    fn from(value: u8) -> (r: NotificationSetting) {
        match value {
            0 => NotificationSetting::Notify,
            _ => NotificationSetting::Ignore,
        }
    }
}

impl vstd::std_specs::convert::FromSpecImpl<u8> for NotificationSetting {
    open spec fn obeys_from_spec() -> bool {
        true
    }

    open spec fn from_spec(value: u8) -> NotificationSetting {
        NotificationSetting::of_number(value)
    }
}

impl From<String> for NotificationSetting {
    fn from(value: String) -> (r: NotificationSetting) {
        NotificationSetting::from_name(value.as_str())
    }
}

impl vstd::std_specs::convert::FromSpecImpl<String> for NotificationSetting {
    open spec fn obeys_from_spec() -> bool {
        true
    }

    open spec fn from_spec(value: String) -> NotificationSetting {
        NotificationSetting::of_name(value@)
    }
}

/// The kind of a posted message.
#[derive(Clone, Copy, Debug, PartialEq, Eq, Structural, Hash)]
pub enum MessageKind {
    Persistent,
    Notification,
    Calendar,
    Unsupported,
}

impl MessageKind {
    /// The name under which a kind is stored; `Unsupported` has none.
    pub open spec fn name(self) -> Seq<char> {
        match self {
            MessageKind::Persistent => "Persistent"@,
            MessageKind::Notification => "Notification"@,
            MessageKind::Calendar => "Calendar"@,
            MessageKind::Unsupported => Seq::empty(),
        }
    }

    /// The kind that a stored name stands for; any other text stands for
    /// `Unsupported`.
    pub open spec fn of_name(value: Seq<char>) -> MessageKind {
        if value == "Persistent"@ {
            MessageKind::Persistent
        } else if value == "Notification"@ {
            MessageKind::Notification
        } else if value == "Calendar"@ {
            MessageKind::Calendar
        } else {
            MessageKind::Unsupported
        }
    }

    /// The kind that a stored number stands for; any other number stands
    /// for `Unsupported`.
    pub open spec fn of_number(value: u8) -> MessageKind {
        match value {
            0 => MessageKind::Persistent,
            1 => MessageKind::Notification,
            2 => MessageKind::Calendar,
            _ => MessageKind::Unsupported,
        }
    }

    /// The number under which a kind is stored.
    pub open spec fn number(self) -> i8 {
        match self {
            MessageKind::Persistent => 0,
            MessageKind::Notification => 1,
            MessageKind::Calendar => 2,
            MessageKind::Unsupported => 3,
        }
    }

    /// The name under which the kind is stored.
    pub fn str(self) -> (r: &'static str)
        requires
            self != MessageKind::Unsupported,
        ensures
            r@ == self.name(),
    {
        match self {
            MessageKind::Persistent => "Persistent",
            MessageKind::Notification => "Notification",
            _ => "Calendar",
        }
    }

    /// The number under which the kind is stored.
    pub fn i8(self) -> (r: i8)
        ensures
            r == self.number(),
    {
        match self {
            MessageKind::Persistent => 0,
            MessageKind::Notification => 1,
            MessageKind::Calendar => 2,
            MessageKind::Unsupported => 3,
        }
    }

    /// The kind that a stored name stands for.
    pub fn from_name(value: &str) -> (r: MessageKind)
        ensures
            r == MessageKind::of_name(value@),
    {
        if same_text(value, "Persistent") {
            MessageKind::Persistent
        } else if same_text(value, "Notification") {
            MessageKind::Notification
        } else if same_text(value, "Calendar") {
            MessageKind::Calendar
        } else {
            MessageKind::Unsupported
        }
    }
}

impl From<u8> for MessageKind {
    fn from(value: u8) -> (r: MessageKind) {
        match value {
            0 => MessageKind::Persistent,
            1 => MessageKind::Notification,
            2 => MessageKind::Calendar,
            _ => MessageKind::Unsupported,
        }
    }
}

impl vstd::std_specs::convert::FromSpecImpl<u8> for MessageKind {
    open spec fn obeys_from_spec() -> bool {
        true
    }

    open spec fn from_spec(value: u8) -> MessageKind {
        MessageKind::of_number(value)
    }
}

impl From<String> for MessageKind {
    fn from(value: String) -> (r: MessageKind) {
        MessageKind::from_name(value.as_str())
    }
}

impl vstd::std_specs::convert::FromSpecImpl<String> for MessageKind {
    open spec fn obeys_from_spec() -> bool {
        true
    }

    open spec fn from_spec(value: String) -> MessageKind {
        MessageKind::of_name(value@)
    }
}

} // verus!
