//! The subscription index: which sessions listen to which topics, and the
//! fan-out of events to them.
//!
//! The index holds session identifiers, never sessions: it does not keep a
//! connection alive. A publish looks each subscriber up in the table of live
//! sessions that the caller hands in.

use crate::event_dispatcher::topics::index_of;
use crate::event_dispatcher::topics::keep_only;
use crate::event_dispatcher::topics::lemma_listed_at;
use crate::event_dispatcher::topics::lemma_listed_new_topic;
use crate::event_dispatcher::topics::lemma_next_listener;
use crate::event_dispatcher::topics::lemma_not_listed;
use crate::event_dispatcher::topics::lemma_pushed;
use crate::event_dispatcher::topics::lemma_pushed_fresh;
use crate::event_dispatcher::topics::lemma_removed_one;
use crate::event_dispatcher::topics::listed;
use crate::event_dispatcher::topics::position;
use crate::event_dispatcher::topics::well_formed;
use crate::event_dispatcher::topics::withdraw;
use crate::event_dispatcher::topics::TopicEntry;
use crate::session::Session;
use crate::types::Subscription;
use std::collections::HashMap;
use vstd::prelude::*;

mod topics;

verus! {

/// The index as a mathematical value: the set of all subscriptions, each
/// one a triple of the topic's kind, the topic's identifier and the
/// subscribed session. A topic without subscribers leaves no trace in it.
pub type Subscriptions = Set<(Seq<char>, Seq<char>, u128)>;

/// The index after `session` has subscribed to the topic.
pub open spec fn with_subscription(
    index: Subscriptions,
    session: u128,
    kind: Seq<char>,
    id: Seq<char>,
) -> Subscriptions {
    index.insert((kind, id, session))
}

/// The index after `session` has unsubscribed from the topic.
pub open spec fn without_subscription(
    index: Subscriptions,
    session: u128,
    kind: Seq<char>,
    id: Seq<char>,
) -> Subscriptions {
    index.remove((kind, id, session))
}

/// The index after `session` has been removed from every topic.
pub open spec fn without_session(index: Subscriptions, session: u128) -> Subscriptions {
    Set::new(|e: (Seq<char>, Seq<char>, u128)| index.contains(e) && e.2 != session)
}

/// The sessions subscribed to the topic: those that a publish to it
/// addresses.
pub open spec fn audience(index: Subscriptions, kind: Seq<char>, id: Seq<char>) -> Set<u128> {
    Set::new(|session: u128| index.contains((kind, id, session)))
}

/// The index after the sessions in `dropped` have been taken out of the
/// topic.
pub open spec fn without_dropped(
    index: Subscriptions,
    kind: Seq<char>,
    id: Seq<char>,
    dropped: Seq<u128>,
) -> Subscriptions {
    Set::new(
        |e: (Seq<char>, Seq<char>, u128)|
            index.contains(e) && !(e.0 == kind && e.1 == id && dropped.contains(e.2)),
    )
}

/// What became of one publish: every subscriber of the topic is in exactly
/// one of the two lists.
#[derive(Debug, Clone, PartialEq, Eq)]
pub struct Delivery {
    /// The sessions on whose channel the payload was enqueued.
    pub delivered: Vec<u128>,
    /// The subscribers that could not be reached: they were not in the
    /// table of live sessions, or their channel was closed. They have been
    /// taken out of the topic.
    pub dropped: Vec<u128>,
}

impl Delivery {
    /// A report of a publish that addressed nobody.
    pub fn new() -> (report: Delivery)
        ensures
            report.delivered@ == Seq::<u128>::empty(),
            report.dropped@ == Seq::<u128>::empty(),
    {
        Delivery { delivered: Vec::new(), dropped: Vec::new() }
    }

    /// Files `session` as delivered when it was reached, as dropped
    /// otherwise.
    pub fn record(&mut self, session: u128, reached: bool)
        ensures
            final(self).delivered@ == if reached {
                old(self).delivered@.push(session)
            } else {
                old(self).delivered@
            },
            final(self).dropped@ == if reached {
                old(self).dropped@
            } else {
                old(self).dropped@.push(session)
            },
    {
        if reached {
            self.delivered.push(session);
        } else {
            self.dropped.push(session);
        }
    }
}

/// Enqueues `payload` for the session with the given identifier and gives
/// what its channel said; gives nothing where the table holds no such session.
fn attempt(sessions: &HashMap<u128, Session>, session_id: u128, payload: &str) -> (attempted: Option<Result<(), crate::session::SendError>>)
    ensures
        attempted is Some <==> sessions@.contains_key(session_id),
{
    broadcast use vstd::std_specs::hash::group_hash_axioms;

    match sessions.get(&session_id) {
        Some(session) => Some(session.send(payload.to_owned())),
        None => None,
    }
}

/// The dispatcher: the index of subscriptions, with fan-out delivery.
pub struct EventDispatcher {
    topics: Vec<TopicEntry>,
}

impl View for EventDispatcher {
    type V = Subscriptions;

    closed spec fn view(&self) -> Subscriptions {
        listed(self.topics@)
    }
}

impl EventDispatcher {
    #[verifier::type_invariant]
    spec fn consistent(self) -> bool {
        well_formed(self.topics@)
    }

    /// An index without subscriptions.
    pub fn new() -> (dispatcher: EventDispatcher)
        ensures
            dispatcher@ == Subscriptions::empty(),
    {
        let dispatcher = EventDispatcher { topics: Vec::new() };
        assert(dispatcher@ =~= Subscriptions::empty());
        dispatcher
    }

    /// Whether `session` is subscribed to the topic.
    pub open spec fn subscribed(&self, session: u128, kind: Seq<char>, id: Seq<char>) -> bool {
        self@.contains((kind, id, session))
    }

    /// Subscribes `session` to the topic. A second subscription to the same
    /// topic changes nothing.
    pub fn subscribe(&mut self, session: &Session, kind: &str, id: &str)
        ensures
            final(self)@ == with_subscription(old(self)@, session.id(), kind@, id@),
    {
        proof {
            use_type_invariant(&*self);
        }
        let sid = session.id();
        let mut topics: Vec<TopicEntry> = Vec::new();
        std::mem::swap(&mut self.topics, &mut topics);
        let ghost before = topics@;
        match position(&topics, kind, id) {
            Some(i) => {
                if index_of(&topics[i].subscribers, sid).is_none() {
                    topics[i].subscribers.push(sid);
                    proof {
                        lemma_pushed(before, topics@, i as int, sid);
                    }
                } else {
                    assert(before[i as int].holds((kind@, id@, sid)));
                }
            },
            None => {
                let mut subscribers: Vec<u128> = Vec::new();
                subscribers.push(sid);
                let topic = Subscription { sub_type: kind.to_owned(), id: id.to_owned() };
                topics.push(TopicEntry { topic, subscribers });
                proof {
                    lemma_listed_new_topic(before, topics@, sid);
                }
            },
        }
        assert(listed(topics@) =~= with_subscription(listed(before), sid, kind@, id@));
        self.topics = topics;
    }

    /// Unsubscribes `session` from the topic. Where it was not subscribed,
    /// nothing changes.
    pub fn unsubscribe(&mut self, session: &Session, kind: &str, id: &str)
        ensures
            final(self)@ == without_subscription(old(self)@, session.id(), kind@, id@),
    {
        proof {
            use_type_invariant(&*self);
        }
        let sid = session.id();
        let mut topics: Vec<TopicEntry> = Vec::new();
        std::mem::swap(&mut self.topics, &mut topics);
        let ghost before = topics@;
        match position(&topics, kind, id) {
            Some(i) => {
                match index_of(&topics[i].subscribers, sid) {
                    Some(j) => {
                        withdraw(&mut topics, i, j);
                        proof {
                            lemma_removed_one(before[i as int].subscribers@, j as int);
                            assert forall|e: (Seq<char>, Seq<char>, u128)|
                                listed(topics@).contains(e) <==> listed(before).remove(
                                    (kind@, id@, sid),
                                ).contains(e) by {
                                if (e.0, e.1) == (kind@, id@) {
                                    lemma_listed_at(before, i as int, e);
                                }
                            }
                        }
                    },
                    None => {
                        proof {
                            lemma_listed_at(before, i as int, (kind@, id@, sid));
                        }
                    },
                }
            },
            None => {
                proof {
                    lemma_not_listed(before, (kind@, id@, sid));
                }
            },
        }
        assert(listed(topics@) =~= without_subscription(listed(before), sid, kind@, id@));
        self.topics = topics;
    }

    /// Removes `session_id` from every topic. Where it was subscribed to
    /// nothing, nothing changes.
    pub fn remove_session(&mut self, session_id: u128)
        ensures
            final(self)@ == without_session(old(self)@, session_id),
    {
        proof {
            use_type_invariant(&*self);
        }
        let mut topics: Vec<TopicEntry> = Vec::new();
        std::mem::swap(&mut self.topics, &mut topics);
        let ghost before = topics@;
        let mut i: usize = 0;
        while i < topics.len()
            invariant
                i <= topics.len(),
                well_formed(topics@),
                forall|k: int| 0 <= k < i ==> !(#[trigger] topics[k]).subscribers@.contains(session_id),
                forall|e: (Seq<char>, Seq<char>, u128)|
                    listed(topics@).contains(e) ==> listed(before).contains(e),
                forall|e: (Seq<char>, Seq<char>, u128)|
                    listed(before).contains(e) && e.2 != session_id ==> listed(topics@).contains(e),
            decreases topics.len() - i,
        {
            match index_of(&topics[i].subscribers, session_id) {
                Some(j) => {
                    let ghost prior = topics@;
                    let count: usize = topics.len();
                    withdraw(&mut topics, i, j);
                    proof {
                        lemma_removed_one(prior[i as int].subscribers@, j as int);
                        assert forall|e: (Seq<char>, Seq<char>, u128)| listed(prior).contains(e)
                            && e.2 != session_id implies listed(topics@).contains(e) by {
                            if (e.0, e.1) == prior[i as int].topic@ {
                                lemma_listed_at(prior, i as int, e);
                            }
                        }
                        assert forall|e: (Seq<char>, Seq<char>, u128)|
                            listed(topics@).contains(e) implies listed(prior).contains(e) by {
                            if (e.0, e.1) == prior[i as int].topic@ {
                                lemma_listed_at(prior, i as int, e);
                            }
                        }
                    }
                    if topics.len() == count {
                        i += 1;
                    }
                },
                None => {
                    i += 1;
                },
            }
        }
        proof {
            assert forall|e: (Seq<char>, Seq<char>, u128)| listed(topics@).contains(e) implies e.2
                != session_id by {
                let k = choose|k: int| 0 <= k < topics.len() && (#[trigger] topics[k]).holds(e);
                assert(!topics[k].subscribers@.contains(session_id));
            }
        }
        assert(listed(topics@) =~= without_session(listed(before), session_id));
        self.topics = topics;
    }

    /// Whether `session_id` is subscribed to the topic.
    pub fn is_subscribed(&self, session_id: u128, kind: &str, id: &str) -> (yes: bool)
        ensures
            yes == self.subscribed(session_id, kind@, id@),
    {
        proof {
            use_type_invariant(self);
        }
        match position(&self.topics, kind, id) {
            Some(i) => {
                proof {
                    lemma_listed_at(self.topics@, i as int, (kind@, id@, session_id));
                }
                index_of(&self.topics[i].subscribers, session_id).is_some()
            },
            None => {
                proof {
                    lemma_not_listed(self.topics@, (kind@, id@, session_id));
                }
                false
            },
        }
    }

    /// The sessions subscribed to the topic, in the order in which they
    /// subscribed.
    pub fn subscribers(&self, kind: &str, id: &str) -> (sessions: Vec<u128>)
        ensures
            sessions@.no_duplicates(),
            forall|s: u128| sessions@.contains(s) <==> audience(self@, kind@, id@).contains(s),
    {
        proof {
            use_type_invariant(self);
        }
        let mut sessions: Vec<u128> = Vec::new();
        match position(&self.topics, kind, id) {
            Some(i) => {
                let count: usize = self.topics[i].subscribers.len();
                let mut j: usize = 0;
                while j < count
                    invariant
                        j <= count,
                        i < self.topics.len(),
                        count == self.topics[i as int].subscribers.len(),
                        sessions@ == self.topics[i as int].subscribers@.take(j as int),
                    decreases count - j,
                {
                    sessions.push(self.topics[i].subscribers[j]);
                    assert(self.topics[i as int].subscribers@.take(j + 1)
                        =~= self.topics[i as int].subscribers@.take(j as int).push(
                        self.topics[i as int].subscribers@[j as int],
                    ));
                    j += 1;
                }
                proof {
                    assert(sessions@ =~= self.topics[i as int].subscribers@);
                    assert forall|s: u128| sessions@.contains(s) <==> audience(
                        self@,
                        kind@,
                        id@,
                    ).contains(s) by {
                        lemma_listed_at(self.topics@, i as int, (kind@, id@, s));
                    }
                }
            },
            None => {
                proof {
                    assert forall|s: u128| !audience(self@, kind@, id@).contains(s) by {
                        lemma_not_listed(self.topics@, (kind@, id@, s));
                    }
                }
            },
        }
        sessions
    }

    /// Enqueues `payload` for every subscriber of the topic that is in
    /// `sessions`, the table of live sessions. A subscriber that is not in
    /// the table, or whose channel no longer takes messages, does not stop
    /// the others: it is taken out of the topic and reported as dropped.
    pub fn publish(
        &mut self,
        sessions: &HashMap<u128, Session>,
        kind: &str,
        id: &str,
        payload: &str,
    ) -> (report: Delivery)
        ensures
            report.delivered@.no_duplicates(),
            report.dropped@.no_duplicates(),
            forall|s: u128|
                audience(old(self)@, kind@, id@).contains(s) <==> report.delivered@.contains(s)
                    || report.dropped@.contains(s),
            forall|s: u128| !(report.delivered@.contains(s) && report.dropped@.contains(s)),
            forall|s: u128| report.delivered@.contains(s) ==> sessions@.contains_key(s),
            final(self)@ == without_dropped(old(self)@, kind@, id@, report.dropped@),
    {
        proof {
            use_type_invariant(&*self);
        }
        let mut topics: Vec<TopicEntry> = Vec::new();
        std::mem::swap(&mut self.topics, &mut topics);
        let ghost before = topics@;
        let mut report = Delivery::new();
        match position(&topics, kind, id) {
            Some(i) => {
                let ghost listeners = before[i as int].subscribers@;
                let mut kept: Vec<u128> = Vec::new();
                let count: usize = topics[i].subscribers.len();
                let mut j: usize = 0;
                while j < count
                    invariant
                        j <= count,
                        i < topics.len(),
                        topics@ == before,
                        listeners == before[i as int].subscribers@,
                        listeners.no_duplicates(),
                        count == listeners.len(),
                        kept@ == report.delivered@,
                        report.delivered@.no_duplicates(),
                        report.dropped@.no_duplicates(),
                        forall|s: u128|
                            listeners.take(j as int).contains(s) <==> report.delivered@.contains(s)
                                || report.dropped@.contains(s),
                        forall|s: u128|
                            !(report.delivered@.contains(s) && report.dropped@.contains(s)),
                        forall|s: u128| report.delivered@.contains(s) ==> sessions@.contains_key(s),
                    decreases count - j,
                {
                    let session_id: u128 = topics[i].subscribers[j];
                    let reached = match attempt(sessions, session_id, payload) {
                        Some(Ok(_)) => true,
                        _ => false,
                    };
                    let ghost earlier = report;
                    report.record(session_id, reached);
                    if reached {
                        kept.push(session_id);
                    }
                    proof {
                        lemma_next_listener(listeners, j as int);
                        lemma_pushed_fresh(earlier.delivered@, session_id);
                        lemma_pushed_fresh(earlier.dropped@, session_id);
                        assert(session_id == listeners[j as int]);
                        assert forall|s: u128|
                            listeners.take(j + 1).contains(s) <==> report.delivered@.contains(s)
                                || report.dropped@.contains(s) by {
                            assert(listeners.take(j as int).contains(s)
                                <==> earlier.delivered@.contains(s) || earlier.dropped@.contains(
                                s,
                            ));
                        }
                    }
                    j += 1;
                }
                proof {
                    assert(listeners.take(count as int) =~= listeners);
                }
                if report.dropped.len() > 0 {
                    keep_only(&mut topics, i, kept);
                } else {
                    proof {
                        assert(report.dropped@ =~= Seq::<u128>::empty());
                    }
                }
                proof {
                    assert forall|e: (Seq<char>, Seq<char>, u128)|
                        listed(topics@).contains(e) <==> without_dropped(
                            listed(before),
                            kind@,
                            id@,
                            report.dropped@,
                        ).contains(e) by {
                        if (e.0, e.1) == (kind@, id@) {
                            lemma_listed_at(before, i as int, e);
                        }
                    }
                    assert forall|s: u128|
                        audience(listed(before), kind@, id@).contains(s) <==> listeners.contains(
                            s,
                        ) by {
                        lemma_listed_at(before, i as int, (kind@, id@, s));
                    }
                }
            },
            None => {
                proof {
                    assert forall|s: u128| !audience(listed(before), kind@, id@).contains(s) by {
                        lemma_not_listed(before, (kind@, id@, s));
                    }
                }
            },
        }
        assert(listed(topics@) =~= without_dropped(listed(before), kind@, id@, report.dropped@));
        self.topics = topics;
        report
    }
}

} // verus!
