//! One connection as its handler sees it: the states it goes through, the
//! events that reach it and the directives it gives.
//!
//! The embedding program owns the socket and the link to the record store.
//! It reports what happens on the connection as [`Inbound`] events and does
//! what the returned [`Directive`] says.

use crate::codec::encode_reply;
use crate::replies::created_reply;
use crate::replies::fetched_reply;
use crate::session::SendError;
use crate::session::Session;
use crate::types::Invoice;
use crate::types::Reply;
use vstd::prelude::*;

verus! {

/// Where a connection stands in its life.
#[derive(Debug, Clone, Copy, PartialEq, Eq, Structural)]
pub enum ConnectionState {
    /// Requests are read and answered.
    Connected,
    /// The peer has left or the transport has failed; cleanup is due.
    Closing,
    /// The session has been taken out of the index and of the table.
    Closed,
}

/// What happened on a connection.
#[derive(Debug, Clone, PartialEq, Eq)]
pub enum Inbound {
    /// A frame arrived that carries this text.
    Text(String),
    /// A frame arrived that carries no text; it is passed over.
    Other,
    /// Reading from the transport failed.
    ReadError,
    /// The peer closed the connection.
    Closed,
    /// The task that writes to the transport has stopped.
    WriterFailed,
}

/// What the embedding program is to do next for a connection.
#[derive(Debug, Clone, PartialEq, Eq)]
pub enum Directive {
    /// Read the next frame.
    Continue,
    /// Ask the record store for the invoice with this identifier, and hand
    /// the answer to [`Connection::on_fetched`].
    Fetch { id: String, expand_related: bool },
    /// Ask the record store to create an invoice with these fields, and
    /// hand the answer to [`Connection::on_created`].
    Create { amount: i64, currency: String, account_id: i64 },
    /// Stop reading, and close the connection.
    Shutdown,
}

/// The state and the directive of a handler once the channel has reported
/// on a reply. A connected handler goes on when the reply was taken, and
/// starts closing when it was not; a handler that is closing or closed
/// stays as it is.
pub open spec fn settled(state: ConnectionState, sent: Result<(), SendError>) -> (
    ConnectionState,
    Directive,
) {
    match (state, sent) {
        (ConnectionState::Connected, Ok(_)) => (ConnectionState::Connected, Directive::Continue),
        (ConnectionState::Connected, Err(_)) => (ConnectionState::Closing, Directive::Shutdown),
        _ => (state, Directive::Shutdown),
    }
}

/// Whether a handler in the state `before` that had a reply to write may
/// come to the state `after` with the directive `next`: it has settled on
/// one of the two reports that the channel can give.
pub open spec fn answered(before: ConnectionState, after: ConnectionState, next: Directive) -> bool {
    ||| (after, next) == settled(before, Ok(()))
    ||| (after, next) == settled(before, Err(SendError::Disconnected))
}

/// The state of a handler once the connection has failed or ended.
pub open spec fn hung_up(state: ConnectionState) -> ConnectionState {
    match state {
        ConnectionState::Connected => ConnectionState::Closing,
        _ => state,
    }
}

/// The handler's side of one connection: its session and its state.
pub struct Connection {
    session: Session,
    state: ConnectionState,
}

impl Connection {
    /// The identifier of the connection's session.
    pub closed spec fn spec_id(&self) -> u128 {
        self.session.id()
    }

    /// The state of the connection.
    pub closed spec fn spec_state(&self) -> ConnectionState {
        self.state
    }

    /// A connection in the state `Connected` that answers through
    /// `session`.
    pub fn new(session: Session) -> (connection: Connection)
        ensures
            connection.id() == session.id(),
            connection.state() == ConnectionState::Connected,
    {
        Connection { session, state: ConnectionState::Connected }
    }

    /// The identifier of the connection's session.
    #[verifier::when_used_as_spec(spec_id)]
    pub fn id(&self) -> (id: u128)
        ensures
            id == self.id(),
    {
        self.session.id()
    }

    /// The state of the connection.
    #[verifier::when_used_as_spec(spec_state)]
    pub fn state(&self) -> (state: ConnectionState)
        ensures
            state == self.state(),
    {
        self.state
    }

    /// The session through which the connection answers.
    pub fn session(&self) -> (session: &Session)
        ensures
            session.id() == self.id(),
    {
        &self.session
    }

    /// Takes note of what the channel said of a reply: see [`settled`].
    pub fn settle(&mut self, sent: Result<(), SendError>) -> (next: Directive)
        ensures
            final(self).id() == old(self).id(),
            (final(self).state(), next) == settled(old(self).state(), sent),
    {
        match self.state {
            ConnectionState::Connected => match sent {
                Ok(_) => Directive::Continue,
                Err(_) => {
                    self.state = ConnectionState::Closing;
                    Directive::Shutdown
                },
            },
            _ => Directive::Shutdown,
        }
    }

    /// Writes `reply` to the client and settles on what the channel said.
    /// A handler that is closing or closed writes nothing.
    pub fn answer(&mut self, reply: &Reply) -> (next: Directive)
        ensures
            final(self).id() == old(self).id(),
            answered(old(self).state(), final(self).state(), next),
    {
        match self.state {
            ConnectionState::Connected => {
                let sent = self.session.send(encode_reply(reply));
                self.settle(sent)
            },
            _ => Directive::Shutdown,
        }
    }

    /// Takes the answer of the record store to a fetch and writes the reply
    /// that [`fetched_reply`] makes of it.
    pub fn on_fetched(&mut self, answer: Result<Option<Invoice>, String>) -> (next: Directive)
        ensures
            final(self).id() == old(self).id(),
            answered(old(self).state(), final(self).state(), next),
    {
        let reply = fetched_reply(answer);
        self.answer(&reply)
    }

    /// Takes the answer of the record store to a create and writes the
    /// reply that [`created_reply`] makes of it.
    pub fn on_created(&mut self, answer: Result<Invoice, String>) -> (next: Directive)
        ensures
            final(self).id() == old(self).id(),
            answered(old(self).state(), final(self).state(), next),
    {
        let reply = created_reply(answer);
        self.answer(&reply)
    }

    /// Takes note that the connection has failed or ended: a connected
    /// handler starts closing.
    pub fn hang_up(&mut self) -> (next: Directive)
        ensures
            final(self).id() == old(self).id(),
            final(self).state() == hung_up(old(self).state()),
            next is Shutdown,
    {
        match self.state {
            ConnectionState::Connected => {
                self.state = ConnectionState::Closing;
            },
            _ => {},
        }
        Directive::Shutdown
    }

    /// Takes note that cleanup is done.
    pub(crate) fn finish(&mut self)
        ensures
            final(self).id() == old(self).id(),
            final(self).state() == ConnectionState::Closed,
    {
        self.state = ConnectionState::Closed;
    }
}

} // verus!
