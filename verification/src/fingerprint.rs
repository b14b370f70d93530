//! The content fingerprint: a number that stands for what a weekend's
//! message shows, so that a message whose content has not changed is left
//! alone.

use std::collections::hash_map::DefaultHasher;
use std::hash::Hasher;
use vstd::prelude::*;
use vstd::relations::{sorted_by, total_ordering};
use vstd::seq_lib::{group_to_multiset_ensures, lemma_sorted_unique};
use vstd::std_specs::hash::DefaultHasherAdditionalSpecFns;
use vstd::utf8::encode_utf8;
use crate::model::SessionStatus;
use crate::record::Session;
use crate::schedule::{FullWeekend, Schedule};
use crate::text::{decimal, i64_text};

verus! {

/// What a session shows: its start, its length, its status and the bytes of
/// its name.
pub struct Shown {
    pub start: i64,
    pub duration: i64,
    pub status: SessionStatus,
    pub name: Seq<u8>,
}

/// What a session shows.
pub open spec fn shown(s: Session) -> Shown {
    Shown {
        start: s.date,
        duration: s.duration,
        status: s.status,
        name: encode_utf8(s.name()),
    }
}

/// What the sessions show, in the order given.
pub open spec fn shown_all(sessions: Seq<Session>) -> Seq<Shown> {
    Seq::new(sessions.len(), |i: int| shown(sessions[i]))
}

/// Whether `a` comes no later than `b` in the order of the dictionary, byte
/// by byte.
pub open spec fn bytes_le(a: Seq<u8>, b: Seq<u8>) -> bool
    decreases a.len(),
{
    if a.len() == 0 {
        true
    } else if b.len() == 0 {
        false
    } else if a[0] != b[0] {
        a[0] < b[0]
    } else {
        bytes_le(a.drop_first(), b.drop_first())
    }
}

/// Whether what one session shows comes no later than what another shows:
/// by the earlier start, then by the shorter length, then by the status,
/// then by the name.
pub open spec fn shown_le(a: Shown, b: Shown) -> bool {
    if a.start != b.start {
        a.start < b.start
    } else if a.duration != b.duration {
        a.duration < b.duration
    } else if a.status != b.status {
        a.status.number() < b.status.number()
    } else {
        bytes_le(a.name, b.name)
    }
}

/// The order of what sessions show, as a relation.
pub open spec fn shown_order() -> spec_fn(Shown, Shown) -> bool {
    |a: Shown, b: Shown| shown_le(a, b)
}

/// What the sessions show, in order: by start, and where sessions start
/// together by length, status and name. Sessions that show the same stand
/// side by side, so the order does not depend on the order of the rows.
pub open spec fn by_start(sessions: Seq<Session>) -> Seq<Shown> {
    shown_all(sessions).sort_by(shown_order())
}

/// What of a session goes into the fingerprint: its name, start, length and
/// status, each as the bytes of its text.
pub open spec fn session_content(s: Shown) -> Seq<Seq<u8>> {
    seq![
        s.name,
        encode_utf8(decimal(s.start as int)),
        encode_utf8(decimal(s.duration as int)),
        encode_utf8(s.status.name()),
    ]
}

/// What of a sequence of sessions goes into the fingerprint.
pub open spec fn sessions_content(sessions: Seq<Shown>) -> Seq<Seq<u8>>
    decreases sessions.len(),
{
    if sessions.len() == 0 {
        Seq::empty()
    } else {
        sessions_content(sessions.drop_last()) + session_content(sessions.last())
    }
}

/// What of a weekend goes into the fingerprint: its name, its icon and what
/// its sessions show, in order. Ids, the year and the weekend's own start
/// and status stay out.
pub open spec fn content(w: Schedule) -> Seq<Seq<u8>> {
    seq![encode_utf8(w.weekend.name@), encode_utf8(w.weekend.icon@)] + sessions_content(
        by_start(w.sessions),
    )
}

/// The fingerprint of a weekend: the hash of its content.
pub open spec fn fingerprint_of(w: Schedule) -> u64 {
    DefaultHasher::spec_finish(content(w))
}

/// The order of bytes holds each text no later than itself.
proof fn lemma_bytes_le_reflexive(a: Seq<u8>)
    ensures
        bytes_le(a, a),
    decreases a.len(),
{
    if a.len() > 0 {
        lemma_bytes_le_reflexive(a.drop_first());
    }
}

/// Two texts that each come no later than the other are the same.
proof fn lemma_bytes_le_antisymmetric(a: Seq<u8>, b: Seq<u8>)
    requires
        bytes_le(a, b),
        bytes_le(b, a),
    ensures
        a == b,
    decreases a.len(),
{
    if a.len() > 0 && b.len() > 0 {
        lemma_bytes_le_antisymmetric(a.drop_first(), b.drop_first());
        assert(a =~= seq![a[0]] + a.drop_first());
        assert(b =~= seq![b[0]] + b.drop_first());
    } else {
        assert(a =~= b);
    }
}

/// The order of bytes carries over.
proof fn lemma_bytes_le_transitive(a: Seq<u8>, b: Seq<u8>, c: Seq<u8>)
    requires
        bytes_le(a, b),
        bytes_le(b, c),
    ensures
        bytes_le(a, c),
    decreases a.len(),
{
    if a.len() > 0 && b.len() > 0 && c.len() > 0 {
        if a[0] == b[0] && b[0] == c[0] {
            lemma_bytes_le_transitive(a.drop_first(), b.drop_first(), c.drop_first());
        }
    }
}

/// Of two texts one comes no later than the other.
proof fn lemma_bytes_le_total(a: Seq<u8>, b: Seq<u8>)
    ensures
        bytes_le(a, b) || bytes_le(b, a),
    decreases a.len(),
{
    if a.len() > 0 && b.len() > 0 && a[0] == b[0] {
        lemma_bytes_le_total(a.drop_first(), b.drop_first());
    }
}

/// What sessions show is in a total order: each comes no later than
/// itself, two that each come no later than the other show the same, the
/// order carries over, and of two one comes no later than the other.
pub proof fn lemma_shown_order_is_total()
    ensures
        total_ordering(shown_order()),
{
    let leq = shown_order();
    assert forall|x: Shown| #[trigger] leq(x, x) by {
        lemma_bytes_le_reflexive(x.name);
    }
    assert forall|x: Shown, y: Shown| #[trigger] leq(x, y) && #[trigger] leq(y, x) implies x
        == y by {
        lemma_bytes_le_antisymmetric(x.name, y.name);
    }
    assert forall|x: Shown, y: Shown, z: Shown| #[trigger] leq(x, y) && #[trigger] leq(
        y,
        z,
    ) implies leq(x, z) by {
        if x.start == y.start && y.start == z.start && x.duration == y.duration && y.duration
            == z.duration && x.status == y.status && y.status == z.status {
            lemma_bytes_le_transitive(x.name, y.name, z.name);
        }
    }
    assert forall|x: Shown, y: Shown| #[trigger] leq(x, y) || #[trigger] leq(y, x) by {
        lemma_bytes_le_total(x.name, y.name);
    }
}

/// Whether `a` comes no later than `b` in the order of the dictionary.
fn bytes_no_later(a: &[u8], b: &[u8]) -> (r: bool)
    ensures
        r == bytes_le(a@, b@),
{
    let mut i: usize = 0;
    assert(a@.skip(0) =~= a@);
    assert(b@.skip(0) =~= b@);
    while i < a.len() && i < b.len()
        invariant
            i <= a@.len(),
            i <= b@.len(),
            bytes_le(a@, b@) == bytes_le(a@.skip(i as int), b@.skip(i as int)),
        decreases a.len() - i,
    {
        assert(a@.skip(i as int)[0] == a@[i as int]);
        assert(b@.skip(i as int)[0] == b@[i as int]);
        if a[i] != b[i] {
            return a[i] < b[i];
        }
        assert(a@.skip(i as int).drop_first() =~= a@.skip(i + 1));
        assert(b@.skip(i as int).drop_first() =~= b@.skip(i + 1));
        i += 1;
    }
    i == a.len()
}

/// Whether what one session shows comes no later than what another shows.
fn no_later(a: &Session, a_name: &[u8], b: &Session, b_name: &[u8]) -> (r: bool)
    requires
        a_name@ == encode_utf8(a.name()),
        b_name@ == encode_utf8(b.name()),
    ensures
        r == shown_le(shown(*a), shown(*b)),
{
    if a.date != b.date {
        a.date < b.date
    } else if a.duration != b.duration {
        a.duration < b.duration
    } else if a.status != b.status {
        a.status.i8() < b.status.i8()
    } else {
        bytes_no_later(a_name, b_name)
    }
}

/// The names of the sessions, in the order given.
fn names_of(sessions: &Vec<Session>) -> (names: Vec<String>)
    ensures
        names@.len() == sessions@.len(),
        forall|i: int| 0 <= i < names@.len() ==> (#[trigger] names@[i])@ == sessions@[i].name(),
{
    let mut names: Vec<String> = Vec::new();
    let mut i: usize = 0;
    while i < sessions.len()
        invariant
            i <= sessions.len(),
            names@.len() == i,
            forall|j: int| 0 <= j < i ==> (#[trigger] names@[j])@ == sessions@[j].name(),
        decreases sessions.len() - i,
    {
        names.push(sessions[i].pretty_name());
        i += 1;
    }
    names
}

/// What the sessions at the given places show.
pub open spec fn shown_at(sessions: Seq<Session>, places: Seq<usize>) -> Seq<Shown> {
    Seq::new(places.len(), |j: int| shown(sessions[places[j] as int]))
}

/// Putting one more in adds it to what is there, wherever it is put.
proof fn lemma_insert_adds(s: Seq<Shown>, p: int, x: Shown)
    requires
        0 <= p <= s.len(),
    ensures
        s.insert(p, x).to_multiset() == s.to_multiset().insert(x),
{
    broadcast use vstd::multiset::group_multiset_axioms;
    broadcast use group_to_multiset_ensures;

    let t = s.insert(p, x);
    assert(t.remove(p) =~= s);
    assert(t[p] == x);
    assert(t.remove(p).to_multiset() == t.to_multiset().remove(x));
    assert(t.contains(x));
    assert(t.to_multiset().count(x) > 0);
    assert(t.to_multiset() =~= s.to_multiset().insert(x));
}

/// The places of the sessions in the order of what they show.
fn start_order(sessions: &Vec<Session>, names: &Vec<String>) -> (order: Vec<usize>)
    requires
        names@.len() == sessions@.len(),
        forall|i: int| 0 <= i < names@.len() ==> (#[trigger] names@[i])@ == sessions@[i].name(),
    ensures
        order@.len() == sessions@.len(),
        forall|j: int| 0 <= j < order@.len() ==> (#[trigger] order@[j]) < sessions@.len(),
        shown_at(sessions@, order@) == by_start(sessions@),
{
    let ghost all = shown_all(sessions@);
    let mut order: Vec<usize> = Vec::new();
    let mut i: usize = 0;
    proof {
        lemma_shown_order_is_total();
        assert(all.take(0) =~= Seq::<Shown>::empty());
        assert(shown_at(sessions@, order@) =~= Seq::<Shown>::empty());
    }
    while i < sessions.len()
        invariant
            i <= sessions.len(),
            order@.len() == i,
            names@.len() == sessions@.len(),
            forall|k: int| 0 <= k < names@.len() ==> (#[trigger] names@[k])@ == sessions@[k].name(),
            all == shown_all(sessions@),
            total_ordering(shown_order()),
            forall|j: int| 0 <= j < order@.len() ==> (#[trigger] order@[j]) < sessions@.len(),
            sorted_by(shown_at(sessions@, order@), shown_order()),
            shown_at(sessions@, order@).to_multiset() == all.take(i as int).to_multiset(),
        decreases sessions.len() - i,
    {
        let ghost sorted = shown_at(sessions@, order@);
        let ghost x = shown(sessions@[i as int]);
        let mut p: usize = order.len();
        while p > 0 && !no_later(
            &sessions[order[p - 1]],
            names[order[p - 1]].as_str().as_bytes(),
            &sessions[i],
            names[i].as_str().as_bytes(),
        )
            invariant
                p <= order@.len(),
                i < sessions.len(),
                names@.len() == sessions@.len(),
                forall|k: int|
                    0 <= k < names@.len() ==> (#[trigger] names@[k])@ == sessions@[k].name(),
                sorted == shown_at(sessions@, order@),
                x == shown(sessions@[i as int]),
                forall|j: int| 0 <= j < order@.len() ==> (#[trigger] order@[j]) < sessions@.len(),
                forall|j: int| p <= j < sorted.len() ==> !shown_le(#[trigger] sorted[j], x),
            decreases p,
        {
            assert(sorted[p - 1] == shown(sessions@[order@[p - 1] as int]));
            p -= 1;
        }
        proof {
            let leq = shown_order();
            if p > 0 {
                assert(sorted[p - 1] == shown(sessions@[order@[p - 1] as int]));
                assert(leq(sorted[p - 1], x));
            }
            let after = sorted.insert(p as int, x);
            assert forall|a: int, b: int| 0 <= a < b < after.len() implies #[trigger] leq(
                after[a],
                after[b],
            ) by {
                if b < p {
                    assert(leq(sorted[a], sorted[b]));
                } else if b == p {
                    if a < p - 1 {
                        assert(leq(sorted[a], sorted[p - 1]));
                    }
                    assert(leq(sorted[a], sorted[p - 1]) && leq(sorted[p - 1], x) ==> leq(
                        sorted[a],
                        x,
                    ));
                    lemma_bytes_le_reflexive(sorted[p - 1].name);
                } else if a == p {
                    assert(!shown_le(sorted[b - 1], x));
                    assert(leq(sorted[b - 1], x) || leq(x, sorted[b - 1]));
                } else if a < p {
                    assert(leq(sorted[a], sorted[b - 1]));
                } else {
                    assert(leq(sorted[a - 1], sorted[b - 1]));
                }
            }
            lemma_insert_adds(sorted, p as int, x);
            broadcast use group_to_multiset_ensures;

            assert(all.take(i + 1) =~= all.take(i as int).push(x));
        }
        order.insert(p, i);
        assert(shown_at(sessions@, order@) =~= sorted.insert(p as int, x));
        i += 1;
    }
    proof {
        assert(all.take(i as int) =~= all);
        all.lemma_sort_by_ensures(shown_order());
        lemma_sorted_unique(shown_at(sessions@, order@), by_start(sessions@), shown_order());
    }
    order
}

impl FullWeekend {
    /// The fingerprint of the weekend as it is shown.
    pub fn fingerprint(&self) -> (r: u64)
        ensures
            r == fingerprint_of(self@),
    {
        let names = names_of(&self.sessions);
        let order = start_order(&self.sessions, &names);
        let ghost sorted = by_start(self.sessions@);
        let mut hasher = DefaultHasher::new();
        hasher.write(self.weekend.name.as_str().as_bytes());
        hasher.write(self.weekend.icon.as_str().as_bytes());
        let ghost head = seq![
            encode_utf8(self.weekend.name@),
            encode_utf8(self.weekend.icon@),
        ];
        assert(hasher@ =~= head + sessions_content(sorted.take(0))) by {
            assert(sorted.take(0) =~= Seq::<Shown>::empty());
        }
        let mut i: usize = 0;
        while i < order.len()
            invariant
                i <= order@.len(),
                order@.len() == self.sessions@.len(),
                names@.len() == self.sessions@.len(),
                forall|k: int|
                    0 <= k < names@.len() ==> (#[trigger] names@[k])@ == self.sessions@[k].name(),
                forall|j: int|
                    0 <= j < order@.len() ==> (#[trigger] order@[j]) < self.sessions@.len(),
                shown_at(self.sessions@, order@) == sorted,
                hasher@ == head + sessions_content(sorted.take(i as int)),
            decreases order.len() - i,
        {
            let s = &self.sessions[order[i]];
            assert(shown(*s) == sorted[i as int]);
            let date = i64_text(s.date);
            let duration = i64_text(s.duration);
            hasher.write(names[order[i]].as_str().as_bytes());
            hasher.write(date.as_str().as_bytes());
            hasher.write(duration.as_str().as_bytes());
            hasher.write(status_text(s).as_bytes());
            proof {
                assert(sorted.take(i + 1).drop_last() =~= sorted.take(i as int));
                assert(sorted.take(i + 1).last() == sorted[i as int]);
                assert(hasher@ =~= head + sessions_content(sorted.take(i + 1)));
            }
            i += 1;
        }
        assert(sorted.take(i as int) =~= sorted);
        hasher.finish()
    }
}

/// The stored name of a session's status, empty where it has none.
fn status_text(s: &Session) -> (r: &'static str)
    ensures
        r@ == s.status.name(),
{
    match s.status {
        SessionStatus::Unsupported => {
            proof {
                reveal_strlit("");
            }
            assert(""@ =~= Seq::<char>::empty());
            ""
        },
        status => status.str(),
    }
}

/// The fingerprint does not depend on the order of the rows, nor on
/// anything that is not shown: two weekends with the same name and icon
/// whose sessions show the same, each as often in the one as in the other,
/// have the same fingerprint, whatever the order of their sessions, their
/// ids, their year, their series, their own start and status.
pub proof fn lemma_fingerprint_ignores_row_order(a: Schedule, b: Schedule)
    requires
        a.weekend.name@ == b.weekend.name@,
        a.weekend.icon@ == b.weekend.icon@,
        shown_all(a.sessions).to_multiset() == shown_all(b.sessions).to_multiset(),
    ensures
        by_start(a.sessions) == by_start(b.sessions),
        fingerprint_of(a) == fingerprint_of(b),
{
    lemma_shown_order_is_total();
    shown_all(a.sessions).lemma_sort_by_ensures(shown_order());
    shown_all(b.sessions).lemma_sort_by_ensures(shown_order());
    lemma_sorted_unique(by_start(a.sessions), by_start(b.sessions), shown_order());
}

/// The fingerprint follows what is shown and nothing else: two weekends
/// with the same name and icon whose sessions, row by row, have the same
/// name, start, length and status have the same fingerprint.
pub proof fn lemma_fingerprint_of_what_is_shown(a: Schedule, b: Schedule)
    requires
        a.weekend.name@ == b.weekend.name@,
        a.weekend.icon@ == b.weekend.icon@,
        a.sessions.len() == b.sessions.len(),
        forall|i: int|
            0 <= i < a.sessions.len() ==> (#[trigger] a.sessions[i]).name() == b.sessions[i].name()
                && a.sessions[i].date == b.sessions[i].date && a.sessions[i].duration
                == b.sessions[i].duration && a.sessions[i].status == b.sessions[i].status,
    ensures
        fingerprint_of(a) == fingerprint_of(b),
{
    assert(shown_all(a.sessions) =~= shown_all(b.sessions)) by {
        assert forall|i: int| 0 <= i < a.sessions.len() implies shown_all(a.sessions)[i]
            == shown_all(b.sessions)[i] by {
            assert(a.sessions[i].name() == b.sessions[i].name());
        }
    }
}

} // verus!
