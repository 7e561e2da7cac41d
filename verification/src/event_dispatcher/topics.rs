//! How the dispatcher holds its subscriptions: one entry per topic, with
//! the operations on the list of entries and what is proved of them.

use crate::event_dispatcher::Subscriptions;
use crate::types::Subscription;
use vstd::prelude::*;

verus! {

/// The subscribers of one topic, in the order in which they subscribed.
pub(super) struct TopicEntry {
    pub(super) topic: Subscription,
    pub(super) subscribers: Vec<u128>,
}

impl TopicEntry {
    /// Whether the subscription `e` is one of this entry: it names the
    /// entry's topic and one of its subscribers.
    pub(super) open spec fn holds(&self, e: (Seq<char>, Seq<char>, u128)) -> bool {
        self.topic@ == (e.0, e.1) && self.subscribers@.contains(e.2)
    }
}

/// No topic is listed twice, and no session is listed twice under a topic.
pub(super) open spec fn tidy(topics: Seq<TopicEntry>) -> bool {
    &&& forall|i: int, j: int|
        0 <= i < j < topics.len() ==> (#[trigger] topics[i]).topic@ != (#[trigger] topics[j]).topic@
    &&& forall|i: int|
        0 <= i < topics.len() ==> (#[trigger] topics[i]).subscribers@.no_duplicates()
}

/// The list is tidy and no topic is listed without a subscriber.
pub(super) open spec fn well_formed(topics: Seq<TopicEntry>) -> bool {
    &&& tidy(topics)
    &&& forall|i: int| 0 <= i < topics.len() ==> (#[trigger] topics[i]).subscribers@.len() > 0
}

/// The subscriptions that the entries hold between them.
pub(super) open spec fn listed(topics: Seq<TopicEntry>) -> Subscriptions {
    Set::new(
        |e: (Seq<char>, Seq<char>, u128)|
            exists|i: int| 0 <= i < topics.len() && (#[trigger] topics[i]).holds(e),
    )
}

/// `after` is `before` with the subscribers of entry `i` replaced by `kept`,
/// the entry being dropped when `kept` is empty.
pub(super) open spec fn replaced(before: Seq<TopicEntry>, after: Seq<TopicEntry>, i: int, kept: Seq<u128>) -> bool {
    if kept.len() == 0 {
        after == before.remove(i)
    } else {
        &&& after.len() == before.len()
        &&& forall|k: int| 0 <= k < before.len() && k != i ==> after[k] == before[k]
        &&& after[i].topic == before[i].topic
        &&& after[i].subscribers@ == kept
    }
}

/// The position of `session` in `sessions`, if it occurs there.
pub(super) fn index_of(sessions: &Vec<u128>, session: u128) -> (at: Option<usize>)
    ensures
        match at {
            Some(j) => j < sessions.len() && sessions[j as int] == session,
            None => !sessions@.contains(session),
        },
{
    let mut j: usize = 0;
    while j < sessions.len()
        invariant
            j <= sessions.len(),
            forall|k: int| 0 <= k < j ==> sessions[k] != session,
        decreases sessions.len() - j,
    {
        if sessions[j] == session {
            return Some(j);
        }
        j += 1;
    }
    None
}

/// The position of the topic in `topics`, if it is listed there.
pub(super) fn position(topics: &Vec<TopicEntry>, kind: &str, id: &str) -> (at: Option<usize>)
    ensures
        match at {
            Some(i) => i < topics.len() && topics[i as int].topic@ == (kind@, id@),
            None => forall|i: int| 0 <= i < topics.len() ==> topics[i].topic@ != (kind@, id@),
        },
{
    let mut i: usize = 0;
    while i < topics.len()
        invariant
            i <= topics.len(),
            forall|k: int| 0 <= k < i ==> topics[k].topic@ != (kind@, id@),
        decreases topics.len() - i,
    {
        if topics[i].topic.sub_type.as_str().eq(kind) && topics[i].topic.id.as_str().eq(id) {
            return Some(i);
        }
        i += 1;
    }
    None
}

/// Takes the subscriber at position `j` out of entry `i`, and drops the
/// entry when it was the last one.
pub(super) fn withdraw(topics: &mut Vec<TopicEntry>, i: usize, j: usize)
    requires
        well_formed(old(topics)@),
        i < old(topics).len(),
        j < old(topics)[i as int].subscribers.len(),
    ensures
        well_formed(final(topics)@),
        replaced(
            old(topics)@,
            final(topics)@,
            i as int,
            old(topics)[i as int].subscribers@.remove(j as int),
        ),
        forall|e: (Seq<char>, Seq<char>, u128)|
            listed(final(topics)@).contains(e) <==> (if (e.0, e.1) == old(topics)[i as int].topic@ {
                old(topics)[i as int].subscribers@.remove(j as int).contains(e.2)
            } else {
                listed(old(topics)@).contains(e)
            }),
{
    let ghost before = topics@;
    let ghost kept = before[i as int].subscribers@.remove(j as int);
    topics[i].subscribers.remove(j);
    if topics[i].subscribers.len() == 0 {
        topics.remove(i);
        assert(topics@ =~= before.remove(i as int));
    }
    proof {
        lemma_removed_one(before[i as int].subscribers@, j as int);
        lemma_replaced(before, topics@, i as int, kept);
    }
}

/// Replaces the subscribers of entry `i` by `kept`, and drops the entry
/// when `kept` is empty.
pub(super) fn keep_only(topics: &mut Vec<TopicEntry>, i: usize, kept: Vec<u128>)
    requires
        well_formed(old(topics)@),
        i < old(topics).len(),
        kept@.no_duplicates(),
    ensures
        well_formed(final(topics)@),
        forall|e: (Seq<char>, Seq<char>, u128)|
            listed(final(topics)@).contains(e) <==> (if (e.0, e.1) == old(topics)[i as int].topic@ {
                kept@.contains(e.2)
            } else {
                listed(old(topics)@).contains(e)
            }),
{
    let ghost before = topics@;
    let ghost sessions = kept@;
    if kept.len() == 0 {
        topics.remove(i);
    } else {
        topics[i].subscribers = kept;
    }
    proof {
        lemma_replaced(before, topics@, i as int, sessions);
    }
}

/// In a tidy list, what is listed under the topic of entry `i` is what
/// entry `i` holds.
pub(super) proof fn lemma_listed_at(topics: Seq<TopicEntry>, i: int, e: (Seq<char>, Seq<char>, u128))
    requires
        tidy(topics),
        0 <= i < topics.len(),
        (e.0, e.1) == topics[i].topic@,
    ensures
        listed(topics).contains(e) <==> topics[i].subscribers@.contains(e.2),
{
    if listed(topics).contains(e) {
        let k = choose|k: int| 0 <= k < topics.len() && (#[trigger] topics[k]).holds(e);
        if k < i {
            assert(topics[k].topic@ != topics[i].topic@);
        } else if k > i {
            assert(topics[i].topic@ != topics[k].topic@);
        }
    }
    if topics[i].subscribers@.contains(e.2) {
        assert(topics[i].holds(e));
    }
}

/// Nothing is listed under a topic that has no entry.
pub(super) proof fn lemma_not_listed(topics: Seq<TopicEntry>, e: (Seq<char>, Seq<char>, u128))
    requires
        forall|i: int| 0 <= i < topics.len() ==> topics[i].topic@ != (e.0, e.1),
    ensures
        !listed(topics).contains(e),
{
    if listed(topics).contains(e) {
        let k = choose|k: int| 0 <= k < topics.len() && (#[trigger] topics[k]).holds(e);
        assert(topics[k].topic@ != (e.0, e.1));
    }
}

/// Adding a subscriber to one entry adds one subscription and keeps the
/// list well formed.
pub(super) proof fn lemma_pushed(before: Seq<TopicEntry>, after: Seq<TopicEntry>, i: int, session: u128)
    requires
        well_formed(before),
        0 <= i < before.len(),
        after.len() == before.len(),
        forall|k: int| 0 <= k < before.len() && k != i ==> after[k] == before[k],
        after[i].topic == before[i].topic,
        after[i].subscribers@ == before[i].subscribers@.push(session),
        !before[i].subscribers@.contains(session),
    ensures
        well_formed(after),
        listed(after) =~= listed(before).insert(
            (before[i].topic@.0, before[i].topic@.1, session),
        ),
{
    let added = (before[i].topic@.0, before[i].topic@.1, session);
    assert forall|k: int| 0 <= k < after.len() implies (#[trigger] after[k]).subscribers@.no_duplicates()
        && after[k].subscribers@.len() > 0 by {
        if k != i {
            assert(after[k] == before[k]);
        } else {
            assert(before[i].subscribers@.no_duplicates());
        }
    }
    assert forall|a: int, b: int| 0 <= a < b < after.len() implies (#[trigger] after[a]).topic@ != (
    #[trigger] after[b]).topic@ by {
        assert(after[a].topic@ == before[a].topic@);
        assert(after[b].topic@ == before[b].topic@);
    }
    assert forall|e: (Seq<char>, Seq<char>, u128)| listed(after).contains(e) implies listed(
        before,
    ).insert(added).contains(e) by {
        let k = choose|k: int| 0 <= k < after.len() && (#[trigger] after[k]).holds(e);
        if k == i {
            if e.2 != session {
                let at = choose|at: int|
                    0 <= at < after[i].subscribers@.len() && after[i].subscribers@[at] == e.2;
                assert(before[i].subscribers@[at] == e.2);
                assert(before[i].holds(e));
            }
        } else {
            assert(before[k].holds(e));
        }
    }
    assert forall|e: (Seq<char>, Seq<char>, u128)|
        listed(before).insert(added).contains(e) implies listed(after).contains(e) by {
        if e == added {
            assert(after[i].subscribers@[before[i].subscribers@.len() as int] == session);
            assert(after[i].holds(e));
        } else {
            let k = choose|k: int| 0 <= k < before.len() && (#[trigger] before[k]).holds(e);
            if k == i {
                let at = choose|at: int|
                    0 <= at < before[i].subscribers@.len() && before[i].subscribers@[at] == e.2;
                assert(after[i].subscribers@[at] == e.2);
            }
            assert(after[k].holds(e));
        }
    }
}

/// Appending an entry for a topic that was not listed, with one subscriber,
/// adds one subscription and keeps the list well formed.
pub(super) proof fn lemma_listed_new_topic(before: Seq<TopicEntry>, after: Seq<TopicEntry>, session: u128)
    requires
        well_formed(before),
        after.len() == before.len() + 1,
        forall|k: int| 0 <= k < before.len() ==> after[k] == before[k],
        forall|k: int| 0 <= k < before.len() ==> before[k].topic@ != after.last().topic@,
        after.last().subscribers@ == seq![session],
    ensures
        well_formed(after),
        listed(after) =~= listed(before).insert(
            (after.last().topic@.0, after.last().topic@.1, session),
        ),
{
    let added = (after.last().topic@.0, after.last().topic@.1, session);
    assert forall|a: int, b: int| 0 <= a < b < after.len() implies (#[trigger] after[a]).topic@ != (
    #[trigger] after[b]).topic@ by {
        assert(after[a] == before[a]);
        if b < before.len() {
            assert(after[b] == before[b]);
        }
    }
    assert forall|k: int| 0 <= k < after.len() implies (#[trigger] after[k]).subscribers@.no_duplicates()
        && after[k].subscribers@.len() > 0 by {
        if k < before.len() {
            assert(after[k] == before[k]);
        }
    }
    assert forall|e: (Seq<char>, Seq<char>, u128)| listed(after).contains(e) implies listed(
        before,
    ).insert(added).contains(e) by {
        let k = choose|k: int| 0 <= k < after.len() && (#[trigger] after[k]).holds(e);
        if k < before.len() {
            assert(before[k].holds(e));
        }
    }
    assert forall|e: (Seq<char>, Seq<char>, u128)|
        listed(before).insert(added).contains(e) implies listed(after).contains(e) by {
        if e == added {
            assert(after.last().subscribers@[0] == session);
            assert(after[before.len() as int].holds(e));
        } else {
            let k = choose|k: int| 0 <= k < before.len() && (#[trigger] before[k]).holds(e);
            assert(after[k].holds(e));
        }
    }
}

/// Replacing the subscribers of one entry changes what is listed under its
/// topic and nothing else, and keeps the list well formed.
pub(super) proof fn lemma_replaced(before: Seq<TopicEntry>, after: Seq<TopicEntry>, i: int, kept: Seq<u128>)
    requires
        well_formed(before),
        0 <= i < before.len(),
        kept.no_duplicates(),
        replaced(before, after, i, kept),
    ensures
        well_formed(after),
        forall|e: (Seq<char>, Seq<char>, u128)|
            listed(after).contains(e) <==> (if (e.0, e.1) == before[i].topic@ {
                kept.contains(e.2)
            } else {
                listed(before).contains(e)
            }),
{
    if kept.len() == 0 {
        assert forall|k: int| 0 <= k < after.len() implies #[trigger] after[k] == before[if k < i {
            k
        } else {
            k + 1
        }] by {}
        assert forall|a: int, b: int| 0 <= a < b < after.len() implies (#[trigger] after[a]).topic@
            != (#[trigger] after[b]).topic@ by {
            let a0 = if a < i { a } else { a + 1 };
            let b0 = if b < i { b } else { b + 1 };
            assert(after[a] == before[a0] && after[b] == before[b0]);
        }
        assert forall|k: int| 0 <= k < after.len() implies (#[trigger] after[k]).subscribers@.no_duplicates()
            && after[k].subscribers@.len() > 0 by {
            let k0 = if k < i { k } else { k + 1 };
            assert(after[k] == before[k0]);
        }
        assert forall|e: (Seq<char>, Seq<char>, u128)| listed(after).contains(e) <==> (if (e.0, e.1)
            == before[i].topic@ {
            kept.contains(e.2)
        } else {
            listed(before).contains(e)
        }) by {
            if listed(after).contains(e) {
                let k = choose|k: int| 0 <= k < after.len() && (#[trigger] after[k]).holds(e);
                let k0 = if k < i { k } else { k + 1 };
                assert(after[k] == before[k0]);
                assert(before[k0].holds(e));
                if k0 < i {
                    assert(before[k0].topic@ != before[i].topic@);
                } else {
                    assert(before[i].topic@ != before[k0].topic@);
                }
            }
            if (e.0, e.1) != before[i].topic@ && listed(before).contains(e) {
                let k0 = choose|k0: int| 0 <= k0 < before.len() && (#[trigger] before[k0]).holds(e);
                let k = if k0 < i { k0 } else { k0 - 1 };
                assert(after[k] == before[k0]);
                assert(after[k].holds(e));
            }
        }
    } else {
        assert forall|a: int, b: int| 0 <= a < b < after.len() implies (#[trigger] after[a]).topic@
            != (#[trigger] after[b]).topic@ by {
            assert(after[a].topic@ == before[a].topic@);
            assert(after[b].topic@ == before[b].topic@);
        }
        assert forall|k: int| 0 <= k < after.len() implies (#[trigger] after[k]).subscribers@.no_duplicates()
            && after[k].subscribers@.len() > 0 by {
            if k != i {
                assert(after[k] == before[k]);
            }
        }
        assert forall|e: (Seq<char>, Seq<char>, u128)| listed(after).contains(e) <==> (if (e.0, e.1)
            == before[i].topic@ {
            kept.contains(e.2)
        } else {
            listed(before).contains(e)
        }) by {
            if (e.0, e.1) == before[i].topic@ {
                lemma_listed_at(after, i, e);
            } else {
                if listed(after).contains(e) {
                    let k = choose|k: int| 0 <= k < after.len() && (#[trigger] after[k]).holds(e);
                    assert(before[k].holds(e));
                }
                if listed(before).contains(e) {
                    let k = choose|k: int| 0 <= k < before.len() && (#[trigger] before[k]).holds(e);
                    assert(after[k].holds(e));
                }
            }
        }
    }
}

/// Removing the one occurrence of an element from a list without
/// repetitions leaves exactly the other elements, still without repetitions.
pub(super) proof fn lemma_removed_one(sessions: Seq<u128>, j: int)
    requires
        sessions.no_duplicates(),
        0 <= j < sessions.len(),
    ensures
        sessions.remove(j).no_duplicates(),
        forall|x: u128|
            sessions.remove(j).contains(x) <==> sessions.contains(x) && x != sessions[j],
{
    let rest = sessions.remove(j);
    assert forall|a: int, b: int| 0 <= a < rest.len() && 0 <= b < rest.len() && a != b implies rest[a]
        != rest[b] by {
        let a0 = if a < j { a } else { a + 1 };
        let b0 = if b < j { b } else { b + 1 };
        assert(rest[a] == sessions[a0] && rest[b] == sessions[b0]);
    }
    assert forall|x: u128| rest.contains(x) <==> sessions.contains(x) && x != sessions[j] by {
        if rest.contains(x) {
            let a = choose|a: int| 0 <= a < rest.len() && rest[a] == x;
            let a0 = if a < j { a } else { a + 1 };
            assert(sessions[a0] == x);
        }
        if sessions.contains(x) && x != sessions[j] {
            let a0 = choose|a0: int| 0 <= a0 < sessions.len() && sessions[a0] == x;
            let a = if a0 < j { a0 } else { a0 - 1 };
            assert(rest[a] == x);
        }
    }
}

/// The first `j + 1` elements of a list without repetitions are the first
/// `j` and one that is not among them.
pub(super) proof fn lemma_next_listener(listeners: Seq<u128>, j: int)
    requires
        listeners.no_duplicates(),
        0 <= j < listeners.len(),
    ensures
        !listeners.take(j).contains(listeners[j]),
        forall|s: u128|
            listeners.take(j + 1).contains(s) <==> listeners.take(j).contains(s) || s
                == listeners[j],
{
    let shorter = listeners.take(j);
    let longer = listeners.take(j + 1);
    assert(longer =~= shorter.push(listeners[j]));
    if shorter.contains(listeners[j]) {
        let a = choose|a: int| 0 <= a < shorter.len() && shorter[a] == listeners[j];
        assert(listeners[a] == listeners[j]);
    }
    lemma_pushed_fresh(shorter, listeners[j]);
}

/// Appending an element holds what was held and the new element; where
/// the element is new, no repetition arises.
pub(super) proof fn lemma_pushed_fresh(sessions: Seq<u128>, session: u128)
    ensures
        forall|s: u128| sessions.push(session).contains(s) <==> sessions.contains(s) || s == session,
        sessions.no_duplicates() && !sessions.contains(session) ==> sessions.push(
            session,
        ).no_duplicates(),
{
    let longer = sessions.push(session);
    assert forall|s: u128| longer.contains(s) <==> sessions.contains(s) || s == session by {
        if longer.contains(s) {
            let a = choose|a: int| 0 <= a < longer.len() && longer[a] == s;
            if a < sessions.len() {
                assert(sessions[a] == s);
            }
        }
        if sessions.contains(s) {
            let a = choose|a: int| 0 <= a < sessions.len() && sessions[a] == s;
            assert(longer[a] == s);
        }
        if s == session {
            assert(longer[sessions.len() as int] == s);
        }
    }
}

} // verus!
