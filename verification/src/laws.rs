//! Laws of the subscription index, proved over its mathematical model.
//!
//! The operations of the dispatcher are specified by the functions
//! `with_subscription`, `without_subscription`, `without_session` and
//! `audience`; what is proved of these functions here therefore holds of
//! every sequence of calls on a dispatcher.

use crate::event_dispatcher::audience;
use crate::event_dispatcher::with_subscription;
use crate::event_dispatcher::without_session;
use crate::event_dispatcher::without_subscription;
use crate::event_dispatcher::Subscriptions;
use vstd::prelude::*;

verus! {

/// One call that a session makes on the index with regard to one topic.
pub enum Call {
    /// The session subscribes to the topic.
    Subscribe,
    /// The session unsubscribes from the topic.
    Unsubscribe,
    /// The session is removed from every topic.
    RemoveSession,
}

impl Call {
    /// Whether the call takes the session out of the topic.
    pub open spec fn removes(self) -> bool {
        self is Unsubscribe || self is RemoveSession
    }
}

/// The index after `session` has made `calls`, in order, with regard to the
/// topic.
pub open spec fn replay(
    index: Subscriptions,
    session: u128,
    kind: Seq<char>,
    id: Seq<char>,
    calls: Seq<Call>,
) -> Subscriptions
    decreases calls.len(),
{
    if calls.len() == 0 {
        index
    } else {
        let earlier = replay(index, session, kind, id, calls.drop_last());
        match calls.last() {
            Call::Subscribe => with_subscription(earlier, session, kind, id),
            Call::Unsubscribe => without_subscription(earlier, session, kind, id),
            Call::RemoveSession => without_session(earlier, session),
        }
    }
}

/// The number of subscribe calls made after the most recent removing call,
/// or in the whole of `calls` where none removes.
pub open spec fn subscribes_since_removal(calls: Seq<Call>) -> nat
    decreases calls.len(),
{
    if calls.len() == 0 {
        0
    } else if calls.last().removes() {
        0
    } else {
        subscribes_since_removal(calls.drop_last()) + 1
    }
}

/// Whether one of `calls` takes the session out of the topic.
pub open spec fn has_removal(calls: Seq<Call>) -> bool {
    exists|k: int| 0 <= k < calls.len() && (#[trigger] calls[k]).removes()
}

/// Subscribing twice is subscribing once.
pub proof fn subscribe_is_idempotent(
    index: Subscriptions,
    session: u128,
    kind: Seq<char>,
    id: Seq<char>,
)
    ensures
        with_subscription(with_subscription(index, session, kind, id), session, kind, id)
            == with_subscription(index, session, kind, id),
{
    assert(with_subscription(with_subscription(index, session, kind, id), session, kind, id)
        =~= with_subscription(index, session, kind, id));
}

/// Unsubscribing a session that is not subscribed changes nothing, and so
/// does unsubscribing a second time.
pub proof fn unsubscribe_of_absent_changes_nothing(
    index: Subscriptions,
    session: u128,
    kind: Seq<char>,
    id: Seq<char>,
)
    ensures
        !index.contains((kind, id, session)) ==> without_subscription(index, session, kind, id)
            == index,
        without_subscription(without_subscription(index, session, kind, id), session, kind, id)
            == without_subscription(index, session, kind, id),
{
    if !index.contains((kind, id, session)) {
        assert(without_subscription(index, session, kind, id) =~= index);
    }
    assert(without_subscription(without_subscription(index, session, kind, id), session, kind, id)
        =~= without_subscription(index, session, kind, id));
}

/// After any sequence of calls of a session with regard to one topic, the
/// session is subscribed to the topic exactly when it has subscribed at
/// least once since its most recent removal; where no call removed it, it
/// is also subscribed if it was before. The subscriptions of other
/// sessions are as they were.
pub proof fn membership_after_calls(
    index: Subscriptions,
    session: u128,
    kind: Seq<char>,
    id: Seq<char>,
    calls: Seq<Call>,
)
    ensures
        replay(index, session, kind, id, calls).contains((kind, id, session)) <==> (
        subscribes_since_removal(calls) > 0 || (!has_removal(calls) && index.contains(
            (kind, id, session),
        ))),
        forall|e: (Seq<char>, Seq<char>, u128)|
            e.2 != session ==> (replay(index, session, kind, id, calls).contains(e)
                <==> index.contains(e)),
    decreases calls.len(),
{
    if calls.len() > 0 {
        let earlier = calls.drop_last();
        membership_after_calls(index, session, kind, id, earlier);
        if calls.last().removes() {
            assert(calls[calls.len() - 1].removes());
        } else {
            if has_removal(calls) {
                let k = choose|k: int| 0 <= k < calls.len() && (#[trigger] calls[k]).removes();
                assert(earlier[k].removes());
            }
            if has_removal(earlier) {
                let k = choose|k: int| 0 <= k < earlier.len() && (#[trigger] earlier[k]).removes();
                assert(calls[k].removes());
            }
        }
    }
}

/// A publish to a topic addresses a session that has just subscribed to
/// it, and does not address one that has just unsubscribed from it; the
/// other sessions are addressed as before.
pub proof fn audience_follows_subscriptions(
    index: Subscriptions,
    session: u128,
    kind: Seq<char>,
    id: Seq<char>,
)
    ensures
        audience(with_subscription(index, session, kind, id), kind, id) == audience(
            index,
            kind,
            id,
        ).insert(session),
        audience(without_subscription(index, session, kind, id), kind, id) == audience(
            index,
            kind,
            id,
        ).remove(session),
{
    assert(audience(with_subscription(index, session, kind, id), kind, id) =~= audience(
        index,
        kind,
        id,
    ).insert(session));
    assert(audience(without_subscription(index, session, kind, id), kind, id) =~= audience(
        index,
        kind,
        id,
    ).remove(session));
}

/// Once a session has been removed, no publish addresses it, whatever the
/// topic; the other sessions are addressed as before.
pub proof fn removed_session_is_not_addressed(
    index: Subscriptions,
    session: u128,
    kind: Seq<char>,
    id: Seq<char>,
)
    ensures
        audience(without_session(index, session), kind, id) == audience(index, kind, id).remove(
            session,
        ),
        !audience(without_session(index, session), kind, id).contains(session),
{
    assert(audience(without_session(index, session), kind, id) =~= audience(
        index,
        kind,
        id,
    ).remove(session));
}

} // verus!
