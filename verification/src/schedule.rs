//! The session scheduler: which session is due, which pass unannounced, and
//! when a weekend is over.

use vstd::prelude::*;
use crate::error::Error;
use crate::model::{SessionStatus, WeekendStatus};
use crate::record::{Session, Weekend};

verus! {

/// A weekend together with its sessions.
#[derive(Debug)]
pub struct FullWeekend {
    pub weekend: Weekend,
    pub sessions: Vec<Session>,
}

/// What a `FullWeekend` holds: the weekend and the sequence of its sessions.
pub struct Schedule {
    pub weekend: Weekend,
    pub sessions: Seq<Session>,
}

impl View for FullWeekend {
    type V = Schedule;

    open spec fn view(&self) -> Schedule {
        Schedule { weekend: self.weekend, sessions: self.sessions@ }
    }
}

/// Whether `a` is due before `b`: by the earlier start, then by the lower id.
pub open spec fn precedes(a: Session, b: Session) -> bool {
    a.date < b.date || (a.date == b.date && a.id <= b.id)
}

impl Schedule {
    /// Whether every session is finished or cancelled.
    pub open spec fn all_terminal(self) -> bool {
        forall|i: int|
            0 <= i < self.sessions.len() ==> (#[trigger] self.sessions[i]).status.is_terminal()
    }

    /// Whether the weekend is over: it is marked `Done`, or it has sessions
    /// and each of them is finished or cancelled.
    pub open spec fn terminal(self) -> bool {
        self.weekend.status == WeekendStatus::Done || (self.sessions.len() > 0
            && self.all_terminal())
    }

    /// Whether the weekend is over once the sessions with the id `id` are
    /// counted as finished.
    pub open spec fn terminal_but(self, id: i32) -> bool {
        self.weekend.status == WeekendStatus::Done || (self.sessions.len() > 0 && forall|i: int|
            0 <= i < self.sessions.len() ==> (#[trigger] self.sessions[i]).id == id
                || self.sessions[i].status.is_terminal())
    }

    /// Whether some session is to be announced at `now`.
    pub open spec fn has_actionable(self, now: i64) -> bool {
        exists|i: int| 0 <= i < self.sessions.len() && (#[trigger] self.sessions[i]).actionable(now)
    }

    /// Whether the session at `k` is the one to announce at `now`: it is to
    /// be announced, no other such session is due before it, and of equal
    /// ones it comes first.
    pub open spec fn is_next(self, now: i64, k: int) -> bool {
        &&& 0 <= k < self.sessions.len()
        &&& self.sessions[k].actionable(now)
        &&& forall|j: int|
            0 <= j < self.sessions.len() && (#[trigger] self.sessions[j]).actionable(now)
                ==> precedes(self.sessions[k], self.sessions[j]) && (precedes(
                self.sessions[j],
                self.sessions[k],
            ) ==> k <= j)
    }

    /// The place of the session to announce at `now`, if there is one. A
    /// weekend that is `Done` announces nothing.
    pub open spec fn next_index(self, now: i64) -> Option<int> {
        if self.weekend.status != WeekendStatus::Done && self.has_actionable(now) {
            Some(choose|k: int| self.is_next(now, k))
        } else {
            None
        }
    }

    /// The session to announce at `now`, if there is one.
    pub open spec fn next(self, now: i64) -> Option<Session> {
        match self.next_index(now) {
            Some(k) => Some(self.sessions[k]),
            None => None,
        }
    }

    /// The schedule after the sessions with the id `id` were announced.
    pub open spec fn after_done(self, id: i32) -> Schedule {
        Schedule {
            weekend: self.weekend,
            sessions: Seq::new(
                self.sessions.len(),
                |i: int|
                    if self.sessions[i].id == id {
                        self.sessions[i].finished()
                    } else {
                        self.sessions[i]
                    },
            ),
        }
    }

    /// The schedule after the sessions that pass unannounced at `now` were
    /// finished.
    pub open spec fn after_skips(self, now: i64) -> Schedule {
        Schedule {
            weekend: self.weekend,
            sessions: Seq::new(
                self.sessions.len(),
                |i: int|
                    if self.sessions[i].skippable(now) {
                        self.sessions[i].finished()
                    } else {
                        self.sessions[i]
                    },
            ),
        }
    }

    /// The ids of the sessions that pass unannounced at `now`, in order.
    pub open spec fn skipped(self, now: i64) -> Seq<i32> {
        self.sessions.filter(|s: Session| s.skippable(now)).map_values(|s: Session| s.id)
    }

    /// The schedule after the weekend was closed: an open weekend that is
    /// over becomes `Done`.
    pub open spec fn closed(self) -> Schedule {
        if self.weekend.status == WeekendStatus::Open && self.terminal() {
            Schedule {
                weekend: Weekend { status: WeekendStatus::Done, ..self.weekend },
                sessions: self.sessions,
            }
        } else {
            self
        }
    }

    /// Whether `later` can come about from this schedule: the same sessions
    /// in the same places, each with the status it had or, if it was pending,
    /// finished; the same weekend, with the status it had or, if it was open,
    /// done.
    pub open spec fn leads_to(self, later: Schedule) -> bool {
        &&& later.sessions.len() == self.sessions.len()
        &&& forall|i: int|
            0 <= i < self.sessions.len() ==> (#[trigger] later.sessions[i]) == self.sessions[i]
                || (self.sessions[i].status.is_pending() && later.sessions[i]
                == self.sessions[i].with_status(SessionStatus::Finished))
        &&& (later.weekend == self.weekend || (self.weekend.status == WeekendStatus::Open
            && later.weekend == Weekend { status: WeekendStatus::Done, ..self.weekend }))
    }
}

impl FullWeekend {
    /// Whether the weekend is over: it is marked `Done`, or it has sessions
    /// and each of them is finished or cancelled.
    pub fn is_done(&self) -> (r: bool)
        ensures
            r == self@.terminal(),
    {
        if self.weekend.status == WeekendStatus::Done {
            return true;
        }
        if self.sessions.len() == 0 {
            return false;
        }
        let mut i: usize = 0;
        while i < self.sessions.len()
            invariant
                i <= self.sessions.len(),
                self.weekend.status != WeekendStatus::Done,
                forall|j: int| 0 <= j < i ==> (#[trigger] self.sessions@[j]).status.is_terminal(),
            decreases self.sessions.len() - i,
        {
            if !self.sessions[i].status.terminal() {
                assert(!self@.sessions[i as int].status.is_terminal());
                return false;
            }
            i += 1;
        }
        true
    }

    /// Whether the weekend is over once the sessions with the id of
    /// `modified_session` are counted as finished.
    pub fn check_is_done(&self, modified_session: &Session) -> (r: bool)
        ensures
            r == self@.terminal_but(modified_session.id),
    {
        if self.weekend.status == WeekendStatus::Done {
            return true;
        }
        if self.sessions.len() == 0 {
            return false;
        }
        let mut i: usize = 0;
        while i < self.sessions.len()
            invariant
                i <= self.sessions.len(),
                self.weekend.status != WeekendStatus::Done,
                forall|j: int|
                    0 <= j < i ==> (#[trigger] self.sessions@[j]).id == modified_session.id
                        || self.sessions@[j].status.is_terminal(),
            decreases self.sessions.len() - i,
        {
            if self.sessions[i].id != modified_session.id && !self.sessions[i].status.terminal() {
                assert(!self@.sessions[i as int].status.is_terminal());
                return false;
            }
            i += 1;
        }
        true
    }

    /// The place of the session to announce at `now`, if there is one.
    pub fn next_index(&self, now: i64) -> (r: Option<usize>)
        ensures
            match r {
                Some(k) => self@.next_index(now) == Some(k as int) && self@.is_next(now, k as int),
                None => self@.next_index(now).is_none(),
            },
    {
        if self.weekend.status == WeekendStatus::Done {
            return None;
        }
        let mut best: Option<usize> = None;
        let mut i: usize = 0;
        while i < self.sessions.len()
            invariant
                i <= self.sessions.len(),
                match best {
                    Some(b) => {
                        &&& b < i
                        &&& self.sessions@[b as int].actionable(now)
                        &&& forall|j: int|
                            0 <= j < i && (#[trigger] self.sessions@[j]).actionable(now)
                                ==> precedes(self.sessions@[b as int], self.sessions@[j])
                                && (precedes(self.sessions@[j], self.sessions@[b as int]) ==> b
                                <= j)
                    },
                    None => forall|j: int|
                        0 <= j < i ==> !(#[trigger] self.sessions@[j]).actionable(now),
                },
            decreases self.sessions.len() - i,
        {
            if self.sessions[i].is_actionable(now) {
                match best {
                    Some(b) => {
                        let before: bool = self.sessions[i].date < self.sessions[b].date || (
                        self.sessions[i].date == self.sessions[b].date && self.sessions[i].id
                            < self.sessions[b].id);
                        if before {
                            best = Some(i);
                        }
                    },
                    None => {
                        best = Some(i);
                    },
                }
            }
            i += 1;
        }
        proof {
            match best {
                Some(b) => {
                    assert(self@.is_next(now, b as int));
                    assert(self@.has_actionable(now));
                    let k = choose|k: int| self@.is_next(now, k);
                    assert(self@.is_next(now, k));
                    assert(k == b);
                },
                None => {
                    assert(!self@.has_actionable(now));
                },
            }
        }
        best
    }

    /// The session to announce at `now`, if there is one: of the pending
    /// sessions that are to be announced and start within the next five
    /// minutes, the one that starts first, and of those the one with the
    /// lowest id. A weekend that is `Done` announces nothing.
    pub fn next_session(&self, now: i64) -> (r: Option<&Session>)
        ensures
            match r {
                Some(s) => self@.next(now) == Some(*s),
                None => self@.next(now).is_none(),
            },
    {
        match self.next_index(now) {
            Some(k) => Some(&self.sessions[k]),
            None => None,
        }
    }

    /// Records that the sessions with the id `id` were announced: each that
    /// was pending is finished. Fails where the weekend has no such session.
    pub fn mark_session_done(&mut self, id: i32) -> (r: Result<(), Error>)
        ensures
            final(self)@ == old(self)@.after_done(id),
            old(self)@.leads_to(final(self)@),
            r.is_ok() <==> exists|i: int|
                0 <= i < old(self).sessions@.len() && (#[trigger] old(self).sessions@[i]).id == id,
            r.is_err() ==> r == Err::<(), Error>(Error::NotFound),
    {
        let mut found: bool = false;
        let mut i: usize = 0;
        while i < self.sessions.len()
            invariant
                i <= self.sessions.len(),
                self.weekend == old(self).weekend,
                self.sessions@.len() == old(self).sessions@.len(),
                forall|j: int|
                    0 <= j < i ==> (#[trigger] self.sessions@[j]) == old(self)@.after_done(
                        id,
                    ).sessions[j],
                forall|j: int|
                    i <= j < self.sessions@.len() ==> (#[trigger] self.sessions@[j])
                        == old(self).sessions@[j],
                found <==> exists|j: int|
                    0 <= j < i && (#[trigger] old(self).sessions@[j]).id == id,
            decreases self.sessions.len() - i,
        {
            if self.sessions[i].id == id {
                found = true;
                let mut s = self.sessions[i].copy();
                s.finish();
                self.sessions.set(i, s);
            }
            i += 1;
        }
        assert(self@.sessions =~= old(self)@.after_done(id).sessions);
        if found {
            Ok(())
        } else {
            Err(Error::NotFound)
        }
    }

    /// Finishes the sessions that pass unannounced at `now` and returns
    /// their ids, in order.
    pub fn skip_ignored(&mut self, now: i64) -> (r: Vec<i32>)
        ensures
            final(self)@ == old(self)@.after_skips(now),
            old(self)@.leads_to(final(self)@),
            r@ == old(self)@.skipped(now),
    {
        let mut ids: Vec<i32> = Vec::new();
        let mut i: usize = 0;
        let ghost skip = |s: Session| s.skippable(now);
        let ghost id_of = |s: Session| s.id;
        assert(old(self).sessions@.take(0) =~= Seq::<Session>::empty());
        while i < self.sessions.len()
            invariant
                i <= self.sessions.len(),
                self.weekend == old(self).weekend,
                self.sessions@.len() == old(self).sessions@.len(),
                skip == |s: Session| s.skippable(now),
                id_of == |s: Session| s.id,
                forall|j: int|
                    0 <= j < i ==> (#[trigger] self.sessions@[j]) == old(self)@.after_skips(
                        now,
                    ).sessions[j],
                forall|j: int|
                    i <= j < self.sessions@.len() ==> (#[trigger] self.sessions@[j])
                        == old(self).sessions@[j],
                ids@ == old(self).sessions@.take(i as int).filter(skip).map_values(id_of),
            decreases self.sessions.len() - i,
        {
            proof {
                let prefix = old(self).sessions@.take(i as int);
                let next = old(self).sessions@.take(i + 1);
                assert(next =~= prefix.push(old(self).sessions@[i as int]));
                assert(next.drop_last() =~= prefix);
                reveal(Seq::filter);
            }
            if self.sessions[i].is_skippable(now) {
                ids.push(self.sessions[i].id);
                let mut s = self.sessions[i].copy();
                s.finish();
                self.sessions.set(i, s);
            }
            i += 1;
            assert(ids@ =~= old(self).sessions@.take(i as int).filter(skip).map_values(id_of));
        }
        assert(old(self).sessions@.take(i as int) =~= old(self).sessions@);
        assert(self@.sessions =~= old(self)@.after_skips(now).sessions);
        ids
    }

    /// Closes the weekend where it is over: an open weekend whose sessions
    /// are all finished or cancelled becomes `Done`. Returns whether it did.
    pub fn mark_weekend_done(&mut self) -> (r: bool)
        ensures
            final(self)@ == old(self)@.closed(),
            old(self)@.leads_to(final(self)@),
            r == (old(self).weekend.status == WeekendStatus::Open && old(self)@.terminal()),
    {
        if self.weekend.status == WeekendStatus::Open && self.is_done() {
            self.weekend.status = WeekendStatus::Done;
            true
        } else {
            false
        }
    }
}

/// Among the first `n` sessions, where one is to be announced, one is due
/// first.
proof fn lemma_first_due(w: Schedule, now: i64, n: int) -> (k: int)
    requires
        0 <= n <= w.sessions.len(),
        exists|j: int| 0 <= j < n && (#[trigger] w.sessions[j]).actionable(now),
    ensures
        0 <= k < n,
        w.sessions[k].actionable(now),
        forall|j: int|
            0 <= j < n && (#[trigger] w.sessions[j]).actionable(now) ==> precedes(
                w.sessions[k],
                w.sessions[j],
            ) && (precedes(w.sessions[j], w.sessions[k]) ==> k <= j),
    decreases n,
{
    let last = n - 1;
    if exists|j: int| 0 <= j < last && (#[trigger] w.sessions[j]).actionable(now) {
        let k0 = lemma_first_due(w, now, last);
        if w.sessions[last].actionable(now) && !precedes(w.sessions[k0], w.sessions[last]) {
            last
        } else {
            k0
        }
    } else {
        let j0 = choose|j: int| 0 <= j < n && (#[trigger] w.sessions[j]).actionable(now);
        assert(j0 == last);
        last
    }
}

/// Where a session is to be announced, the place that `next_index` names is
/// that of the session due first.
pub proof fn lemma_next_is_first(w: Schedule, now: i64)
    requires
        w.next_index(now).is_some(),
    ensures
        w.is_next(now, w.next_index(now).unwrap()),
{
    let k = lemma_first_due(w, now, w.sessions.len() as int);
    assert(w.is_next(now, k));
}

/// A session that was announced and marked is never due again: once the
/// sessions with the id of the session that was due at `now` are finished,
/// no session with that id is to be announced at any time `later`, and the
/// session that is due then, if any, has another id.
pub proof fn lemma_announced_once(w: Schedule, now: i64, later: i64)
    requires
        w.next(now).is_some(),
    ensures
        forall|j: int|
            0 <= j < w.sessions.len() && (#[trigger] w.after_done(
                w.next(now).unwrap().id,
            ).sessions[j]).id == w.next(now).unwrap().id ==> !w.after_done(
                w.next(now).unwrap().id,
            ).sessions[j].actionable(later),
        match w.after_done(w.next(now).unwrap().id).next(later) {
            Some(t) => t.id != w.next(now).unwrap().id,
            None => true,
        },
{
    let id = w.next(now).unwrap().id;
    let after = w.after_done(id);
    assert forall|j: int| 0 <= j < w.sessions.len() && (#[trigger] after.sessions[j]).id
        == id implies !after.sessions[j].actionable(later) by {
        assert(w.sessions[j].id == id);
        assert(after.sessions[j] == w.sessions[j].finished());
    }
    if after.next(later).is_some() {
        let k = after.next_index(later).unwrap();
        lemma_next_is_first(after, later);
        assert(after.is_next(later, k));
    }
}

/// A status never leaves a terminal state: in any schedule that comes about
/// from another, a session that was finished or cancelled has the status it
/// had, every other session has the status it had or a status that it may
/// take, and a weekend that was done or cancelled has the status it had.
pub proof fn lemma_status_monotone(a: Schedule, b: Schedule)
    requires
        a.leads_to(b),
    ensures
        b.sessions.len() == a.sessions.len(),
        forall|i: int|
            0 <= i < a.sessions.len() && (#[trigger] a.sessions[i]).status.is_terminal()
                ==> b.sessions[i].status == a.sessions[i].status,
        forall|i: int|
            0 <= i < a.sessions.len() ==> (#[trigger] b.sessions[i]).status
                == a.sessions[i].status || a.sessions[i].status.may_become(b.sessions[i].status),
        a.weekend.status.is_final() ==> b.weekend.status == a.weekend.status,
        b.weekend.status == WeekendStatus::Open ==> a.weekend.status == WeekendStatus::Open,
{
    assert forall|i: int|
        0 <= i < a.sessions.len() && (#[trigger] a.sessions[i]).status.is_terminal() implies
        b.sessions[i].status == a.sessions[i].status by {
        assert(b.sessions[i] == a.sessions[i] || (a.sessions[i].status.is_pending()
            && b.sessions[i] == a.sessions[i].with_status(SessionStatus::Finished)));
    }
    assert forall|i: int| 0 <= i < a.sessions.len() implies (#[trigger] b.sessions[i]).status
        == a.sessions[i].status || a.sessions[i].status.may_become(b.sessions[i].status) by {
        assert(b.sessions[i] == a.sessions[i] || (a.sessions[i].status.is_pending()
            && b.sessions[i] == a.sessions[i].with_status(SessionStatus::Finished)));
    }
}

/// Every schedule comes about from itself.
pub proof fn lemma_leads_to_itself(a: Schedule)
    ensures
        a.leads_to(a),
{
}

/// What comes about in two steps comes about: so a status stays terminal
/// over any number of calls.
pub proof fn lemma_leads_to_chain(a: Schedule, b: Schedule, c: Schedule)
    requires
        a.leads_to(b),
        b.leads_to(c),
    ensures
        a.leads_to(c),
{
    assert forall|i: int| 0 <= i < a.sessions.len() implies (#[trigger] c.sessions[i])
        == a.sessions[i] || (a.sessions[i].status.is_pending() && c.sessions[i]
        == a.sessions[i].with_status(SessionStatus::Finished)) by {
        assert(b.sessions[i] == a.sessions[i] || (a.sessions[i].status.is_pending()
            && b.sessions[i] == a.sessions[i].with_status(SessionStatus::Finished)));
        assert(c.sessions[i] == b.sessions[i] || (b.sessions[i].status.is_pending()
            && c.sessions[i] == b.sessions[i].with_status(SessionStatus::Finished)));
    }
}

/// A weekend with sessions that are all finished or cancelled is over, and
/// one session that is not keeps a weekend that is not marked `Done` from
/// being over.
pub proof fn lemma_weekend_is_over_with_its_sessions(w: Schedule, i: int)
    requires
        0 <= i < w.sessions.len(),
    ensures
        w.all_terminal() ==> w.terminal(),
        !w.sessions[i].status.is_terminal() && w.weekend.status != WeekendStatus::Done
            ==> !w.terminal(),
{
}

} // verus!
