//! The server: its settings, the table of live sessions and the
//! subscription index, and what it does with the events of a connection
//! from accept to cleanup.

use crate::codec::decode;
use crate::codec::decoded;
use crate::connection::answered;
use crate::connection::hung_up;
use crate::connection::Connection;
use crate::connection::ConnectionState;
use crate::connection::Directive;
use crate::connection::Inbound;
use crate::event_dispatcher::audience;
use crate::event_dispatcher::with_subscription;
use crate::event_dispatcher::without_dropped;
use crate::event_dispatcher::without_session;
use crate::event_dispatcher::without_subscription;
use crate::event_dispatcher::Delivery;
use crate::event_dispatcher::EventDispatcher;
use crate::event_dispatcher::Subscriptions;
use crate::replies::invalid_format_reply;
use crate::replies::says;
use crate::replies::subscribed_reply;
use crate::replies::subscribed_text;
use crate::replies::unsubscribed_reply;
use crate::replies::unsubscribed_text;
use crate::session::fresh_id;
use crate::session::Session;
use crate::types::Message;
use crate::types::MessageView;
use crate::types::Reply;
use futures::channel::mpsc::UnboundedSender;
use std::collections::HashMap;
use vstd::prelude::*;

verus! {

/// What handling a request came to: a reply that is due at once, or a call
/// to the record store whose answer will make the reply.
#[derive(Debug, Clone, PartialEq, Eq)]
pub enum Handled {
    Reply(Reply),
    Fetch { id: String, expand_related: bool },
    Create { amount: i64, currency: String, account_id: i64 },
}

/// The index after `session` has made `request`.
pub open spec fn index_after(index: Subscriptions, session: u128, request: MessageView) -> Subscriptions {
    match request {
        MessageView::Subscribe { sub_type, id } => with_subscription(index, session, sub_type, id),
        MessageView::Unsubscribe { sub_type, id } => without_subscription(
            index,
            session,
            sub_type,
            id,
        ),
        _ => index,
    }
}

/// Whether `outcome` is what handling `request` comes to.
pub open spec fn answers(outcome: Handled, request: MessageView) -> bool {
    match request {
        MessageView::Subscribe { sub_type, id } => outcome matches Handled::Reply(reply) && says(
            reply,
            "success"@,
            subscribed_text(sub_type, id),
        ),
        MessageView::Unsubscribe { sub_type, id } => outcome matches Handled::Reply(reply) && says(
            reply,
            "success"@,
            unsubscribed_text(sub_type, id),
        ),
        MessageView::FetchInvoice { id } => outcome matches Handled::Fetch {
            id: asked,
            expand_related,
        } && asked@ == id && expand_related,
        MessageView::CreateInvoice { amount, currency, account_id } => outcome matches Handled::Create {
            amount: sum,
            currency: unit,
            account_id: account,
        } && sum == amount && unit@ == currency && account == account_id,
    }
}

/// The index after `session` has sent a frame with this text: a frame
/// that holds no request leaves the index as it is.
pub open spec fn index_after_frame(index: Subscriptions, session: u128, text: Seq<char>) -> Subscriptions {
    match decoded(text) {
        Ok(request) => index_after(index, session, request),
        Err(_) => index,
    }
}

/// Whether `outcome` is what handling a frame with this text comes to: what
/// its request comes to, or for a frame that holds no request the reply
/// that says so.
pub open spec fn answers_frame(outcome: Handled, text: Seq<char>) -> bool {
    match decoded(text) {
        Ok(request) => answers(outcome, request),
        Err(_) => outcome matches Handled::Reply(reply) && says(
            reply,
            "error"@,
            "Invalid message format"@,
        ),
    }
}

/// The index after a handler in the given state, for `session`, has taken
/// `event`: only a text frame that reaches a connected handler can change
/// it.
pub open spec fn index_after_event(
    index: Subscriptions,
    session: u128,
    state: ConnectionState,
    event: Inbound,
) -> Subscriptions {
    match (state, event) {
        (ConnectionState::Connected, Inbound::Text(text)) => index_after_frame(
            index,
            session,
            text@,
        ),
        _ => index,
    }
}

/// Whether a handler in the state `before` that takes `event` may come to
/// the state `after` with the directive `next`.
///
/// A handler that is closing or closed stays as it is and shuts down. A
/// connected handler starts closing on a read error, when the peer has
/// closed and when the writer has stopped; it passes over a frame without
/// text; it hands a fetch or a create on to the embedding program; and for
/// every other text frame it writes one reply, and goes on or shuts down
/// as the channel took the reply or not.
pub open spec fn step(
    before: ConnectionState,
    event: Inbound,
    after: ConnectionState,
    next: Directive,
) -> bool {
    if before != ConnectionState::Connected {
        after == before && next is Shutdown
    } else {
        match event {
            Inbound::ReadError | Inbound::Closed | Inbound::WriterFailed => after == hung_up(before)
                && next is Shutdown,
            Inbound::Other => after == before && next is Continue,
            Inbound::Text(text) => match decoded(text@) {
                Ok(MessageView::FetchInvoice { id }) => {
                    &&& after == before
                    &&& next matches Directive::Fetch { id: asked, expand_related }
                    &&& asked@ == id
                    &&& expand_related
                },
                Ok(MessageView::CreateInvoice { amount, currency, account_id }) => {
                    &&& after == before
                    &&& next matches Directive::Create {
                        amount: sum,
                        currency: unit,
                        account_id: account,
                    }
                    &&& sum == amount
                    &&& unit@ == currency
                    &&& account == account_id
                },
                _ => answered(before, after, next),
            },
        }
    }
}

/// The relay server: its settings, the table of live sessions and the
/// subscription index.
pub struct AnypayEventsServer {
    event_dispatcher: EventDispatcher,
    sessions: HashMap<u128, Session>,
    addr: String,
    supabase_url: String,
    supabase_anon_key: String,
    supabase_service_role_key: String,
}

impl AnypayEventsServer {
    /// The subscriptions that the index holds.
    pub closed spec fn subscriptions(&self) -> Subscriptions {
        self.event_dispatcher@
    }

    /// The identifiers of the live sessions.
    pub closed spec fn live(&self) -> Set<u128> {
        self.sessions@.dom()
    }

    /// The address to listen on.
    pub closed spec fn address(&self) -> Seq<char> {
        self.addr@
    }

    /// The location of the record store and the two keys for it.
    pub closed spec fn record_store(&self) -> (Seq<char>, Seq<char>, Seq<char>) {
        (self.supabase_url@, self.supabase_anon_key@, self.supabase_service_role_key@)
    }

    /// A server for the address `addr` without sessions and without
    /// subscriptions, with the location of the record store and its keys.
    pub fn new(
        addr: &str,
        supabase_url: &str,
        supabase_anon_key: &str,
        supabase_service_role_key: &str,
    ) -> (server: AnypayEventsServer)
        ensures
            server.subscriptions() == Subscriptions::empty(),
            server.live() == Set::<u128>::empty(),
            server.address() == addr@,
            server.record_store() == (supabase_url@, supabase_anon_key@, supabase_service_role_key@),
    {
        let server = AnypayEventsServer {
            event_dispatcher: EventDispatcher::new(),
            sessions: HashMap::new(),
            addr: addr.to_owned(),
            supabase_url: supabase_url.to_owned(),
            supabase_anon_key: supabase_anon_key.to_owned(),
            supabase_service_role_key: supabase_service_role_key.to_owned(),
        };
        assert(server.live() =~= Set::<u128>::empty());
        server
    }

    /// Handles one request of `session`: subscribes or unsubscribes it and
    /// confirms, or names the call to the record store that the request
    /// asks for.
    pub fn handle_message(
        message: Message,
        session: &Session,
        event_dispatcher: &mut EventDispatcher,
    ) -> (outcome: Handled)
        ensures
            final(event_dispatcher)@ == index_after(old(event_dispatcher)@, session.id(), message@),
            answers(outcome, message@),
    {
        match message {
            Message::Subscribe { sub_type, id } => {
                event_dispatcher.subscribe(session, sub_type.as_str(), id.as_str());
                Handled::Reply(subscribed_reply(sub_type.as_str(), id.as_str()))
            },
            Message::Unsubscribe { sub_type, id } => {
                event_dispatcher.unsubscribe(session, sub_type.as_str(), id.as_str());
                Handled::Reply(unsubscribed_reply(sub_type.as_str(), id.as_str()))
            },
            Message::FetchInvoice { id } => Handled::Fetch { id, expand_related: true },
            Message::CreateInvoice { amount, currency, account_id } => Handled::Create {
                amount,
                currency,
                account_id,
            },
        }
    }

    /// Handles the text of one frame of `session`: the request in it, as
    /// [`AnypayEventsServer::handle_message`] does, or a frame that holds
    /// none with the reply that says so.
    pub fn handle_frame(text: &str, session: &Session, event_dispatcher: &mut EventDispatcher) -> (outcome:
        Handled)
        ensures
            final(event_dispatcher)@ == index_after_frame(
                old(event_dispatcher)@,
                session.id(),
                text@,
            ),
            answers_frame(outcome, text@),
    {
        match decode(text) {
            Ok(message) => Self::handle_message(message, session, event_dispatcher),
            Err(_) => Handled::Reply(invalid_format_reply()),
        }
    }

    /// Enters `session` into the table of live sessions and makes its
    /// connection, unless a session with the same identifier is live.
    pub fn register(&mut self, session: Session) -> (opened: Option<Connection>)
        ensures
            final(self).subscriptions() == old(self).subscriptions(),
            final(self).address() == old(self).address(),
            final(self).record_store() == old(self).record_store(),
            opened is Some <==> !old(self).live().contains(session.id()),
            match opened {
                Some(connection) => connection.id() == session.id() && connection.state()
                    == ConnectionState::Connected && final(self).live() == old(self).live().insert(
                    session.id(),
                ),
                None => final(self).live() == old(self).live(),
            },
    {
        broadcast use vstd::std_specs::hash::group_hash_axioms;

        let id = session.id();
        if self.sessions.contains_key(&id) {
            None
        } else {
            let connection = Connection::new(session.clone());
            self.sessions.insert(id, session);
            Some(connection)
        }
    }

    /// Makes a session with a fresh random identifier that writes to
    /// `sender`, and registers it. Gives nothing, and changes nothing,
    /// where the identifier is that of a live session.
    pub fn open_session(&mut self, sender: UnboundedSender<String>) -> (opened: Option<Connection>)
        ensures
            final(self).subscriptions() == old(self).subscriptions(),
            final(self).address() == old(self).address(),
            final(self).record_store() == old(self).record_store(),
            match opened {
                Some(connection) => crate::session::is_random_id(connection.id())
                    && !old(self).live().contains(connection.id()) && connection.state()
                    == ConnectionState::Connected && final(self).live() == old(self).live().insert(
                    connection.id(),
                ),
                None => final(self).live() == old(self).live() && exists|taken: u128|
                    crate::session::is_random_id(taken) && #[trigger] old(self).live().contains(
                        taken,
                    ),
            },
    {
        let session = Session::new(fresh_id(), sender);
        let ghost id = session.id();
        let opened = self.register(session);
        assert(opened is None ==> old(self).live().contains(id));
        opened
    }

    /// Takes one event of a connection: see [`step`] for the states and
    /// directives, and [`index_after_event`] for the index.
    pub fn on_event(&mut self, connection: &mut Connection, event: Inbound) -> (next: Directive)
        ensures
            final(connection).id() == old(connection).id(),
            final(self).live() == old(self).live(),
            final(self).address() == old(self).address(),
            final(self).record_store() == old(self).record_store(),
            final(self).subscriptions() == index_after_event(
                old(self).subscriptions(),
                old(connection).id(),
                old(connection).state(),
                event,
            ),
            step(old(connection).state(), event, final(connection).state(), next),
    {
        match connection.state() {
            ConnectionState::Connected => {},
            _ => {
                return Directive::Shutdown;
            },
        }
        match event {
            Inbound::Text(text) => {
                let outcome = Self::handle_frame(
                    text.as_str(),
                    connection.session(),
                    &mut self.event_dispatcher,
                );
                match outcome {
                    Handled::Reply(reply) => connection.answer(&reply),
                    Handled::Fetch { id, expand_related } => Directive::Fetch { id, expand_related },
                    Handled::Create { amount, currency, account_id } => Directive::Create {
                        amount,
                        currency,
                        account_id,
                    },
                }
            },
            Inbound::Other => Directive::Continue,
            Inbound::ReadError | Inbound::Closed | Inbound::WriterFailed => connection.hang_up(),
        }
    }

    /// Ends a connection: takes its session out of every topic and out of
    /// the table of live sessions, and leaves the connection `Closed`. On a
    /// connection that is closed already, nothing is done a second time.
    pub fn close(&mut self, connection: &mut Connection)
        ensures
            final(connection).id() == old(connection).id(),
            final(connection).state() == ConnectionState::Closed,
            final(self).address() == old(self).address(),
            final(self).record_store() == old(self).record_store(),
            old(connection).state() != ConnectionState::Closed ==> final(self).subscriptions()
                == without_session(old(self).subscriptions(), old(connection).id())
                && final(self).live() == old(self).live().remove(old(connection).id()),
            old(connection).state() == ConnectionState::Closed ==> final(self).subscriptions()
                == old(self).subscriptions() && final(self).live() == old(self).live(),
    {
        broadcast use vstd::std_specs::hash::group_hash_axioms;

        match connection.state() {
            ConnectionState::Closed => {},
            _ => {
                let id = connection.id();
                self.event_dispatcher.remove_session(id);
                self.sessions.remove(&id);
                connection.finish();
            },
        }
    }

    /// Enqueues `payload` for every live session that is subscribed to the
    /// topic. A subscriber that is no longer live, or whose channel no
    /// longer takes messages, is taken out of the topic and reported as
    /// dropped; the others are served all the same.
    pub fn publish(&mut self, kind: &str, id: &str, payload: &str) -> (report: Delivery)
        ensures
            final(self).live() == old(self).live(),
            final(self).address() == old(self).address(),
            final(self).record_store() == old(self).record_store(),
            report.delivered@.no_duplicates(),
            report.dropped@.no_duplicates(),
            forall|s: u128|
                audience(old(self).subscriptions(), kind@, id@).contains(s)
                    <==> report.delivered@.contains(s) || report.dropped@.contains(s),
            forall|s: u128| !(report.delivered@.contains(s) && report.dropped@.contains(s)),
            forall|s: u128| report.delivered@.contains(s) ==> old(self).live().contains(s),
            final(self).subscriptions() == without_dropped(
                old(self).subscriptions(),
                kind@,
                id@,
                report.dropped@,
            ),
    {
        self.event_dispatcher.publish(&self.sessions, kind, id, payload)
    }

    /// Whether `session_id` is subscribed to the topic.
    pub fn is_subscribed(&self, session_id: u128, kind: &str, id: &str) -> (yes: bool)
        ensures
            yes == self.subscriptions().contains((kind@, id@, session_id)),
    {
        self.event_dispatcher.is_subscribed(session_id, kind, id)
    }

    /// Whether a session with this identifier is live.
    pub fn is_live(&self, session_id: u128) -> (yes: bool)
        ensures
            yes == self.live().contains(session_id),
    {
        broadcast use vstd::std_specs::hash::group_hash_axioms;

        self.sessions.contains_key(&session_id)
    }

    /// The address to listen on.
    pub fn addr(&self) -> (addr: &str)
        ensures
            addr@ == self.address(),
    {
        self.addr.as_str()
    }

    /// The location of the record store.
    pub fn supabase_url(&self) -> (url: &str)
        ensures
            url@ == self.record_store().0,
    {
        self.supabase_url.as_str()
    }

    /// The key with which clients read from the record store.
    pub fn supabase_anon_key(&self) -> (key: &str)
        ensures
            key@ == self.record_store().1,
    {
        self.supabase_anon_key.as_str()
    }

    /// The key with which the server writes to the record store.
    pub fn supabase_service_role_key(&self) -> (key: &str)
        ensures
            key@ == self.record_store().2,
    {
        self.supabase_service_role_key.as_str()
    }
}

} // verus!
