//! A session: the server's handle on one live client connection.
//!
//! A session carries its identifier and the sending half of the
//! connection's outbound channel. Whoever holds the session may enqueue
//! messages; a writer owned by the embedding program drains the channel
//! onto the transport in the order of enqueueing.

use futures::channel::mpsc::TrySendError;
use futures::channel::mpsc::UnboundedSender;
use vstd::prelude::*;

verus! {

/// The sending half of an unbounded channel of the `futures` crate.
#[verifier::external_type_specification]
#[verifier::external_body]
#[verifier::reject_recursive_types(T)]
pub struct ExUnboundedSender<T>(UnboundedSender<T>);

/// The error of a send on such a channel; it holds the rejected message.
#[verifier::external_type_specification]
#[verifier::external_body]
#[verifier::reject_recursive_types(T)]
pub struct ExTrySendError<T>(TrySendError<T>);

/// Why a message could not be enqueued for a session.
#[derive(Debug, Clone, Copy, PartialEq, Eq, Structural)]
pub enum SendError {
    /// The receiving half of the channel is gone: the client has left.
    Disconnected,
}

/// Calls `UnboundedSender::unbounded_send`, which pushes `message` onto the
/// channel's queue without blocking, or hands it back in an error when the
/// receiving half was closed or dropped. Which of the two happens depends on
/// what the receiving task has done, so nothing is claimed of the result.
/// The call aborts once half of `usize::MAX` messages wait in the queue,
/// which memory does not allow.
#[verifier::external_body]
fn channel_send(sender: &UnboundedSender<String>, message: String) -> (outcome: Result<
    (),
    TrySendError<String>,
>) {
    sender.unbounded_send(message)
}

/// Calls `UnboundedSender::clone`, which makes another sending handle of
/// the same channel. Nothing is claimed of the result. The call aborts once
/// a quarter of `usize::MAX` handles of one channel are alive, which memory
/// does not allow.
#[verifier::external_body]
fn channel_share(sender: &UnboundedSender<String>) -> (shared: UnboundedSender<String>) {
    sender.clone()
}

/// Calls `Uuid::new_v4` and `Uuid::as_u128`: a random identifier of
/// version four, as a number. Only the four version bits and the two
/// variant bits are the same in every result. The call aborts where the
/// operating system gives no random bytes.
#[verifier::external_body]
pub(crate) fn fresh_id() -> (id: u128)
    ensures
        id & 0x0000_0000_0000_f000_c000_0000_0000_0000u128
            == 0x0000_0000_0000_4000_8000_0000_0000_0000u128,
{
    uuid::Uuid::new_v4().as_u128()
}

/// The server-side handle of one live client connection.
pub struct Session {
    id: u128,
    sender: UnboundedSender<String>,
}

impl Clone for Session {
    /// Another handle of the same session: it carries the same identifier
    /// and writes to the same channel.
    fn clone(&self) -> (shared: Session)
        ensures
            shared.id() == self.id(),
    {
        Session { id: self.id, sender: channel_share(&self.sender) }
    }
}

impl Session {
    /// A session with the given identifier that writes to `sender`.
    pub fn new(id: u128, sender: UnboundedSender<String>) -> (session: Session)
        ensures
            session.id() == id,
    {
        Session { id, sender }
    }

    /// The identifier given at creation.
    pub closed spec fn spec_id(&self) -> u128 {
        self.id
    }

    /// The identifier given at creation.
    #[verifier::when_used_as_spec(spec_id)]
    pub fn id(&self) -> (id: u128)
        ensures
            id == self.id(),
    {
        self.id
    }

    /// Enqueues `message` for the client without blocking. Fails with
    /// [`SendError::Disconnected`] when the receiving half of the channel is
    /// gone; the caller may treat that as a no-op.
    pub fn send(&self, message: String) -> (outcome: Result<(), SendError>) {
        send_outcome(channel_send(&self.sender, message))
    }
}

/// What the channel's answer to a send means for a session: the message
/// was enqueued, or the channel gave it back because the receiving half is
/// gone.
pub fn send_outcome(sent: Result<(), TrySendError<String>>) -> (outcome: Result<(), SendError>)
    ensures
        outcome is Ok <==> sent is Ok,
{
    match sent {
        Ok(_) => Ok(()),
        Err(_) => Err(SendError::Disconnected),
    }
}

/// Whether `id` is a random identifier: its four version bits say version
/// four, and its two variant bits say the standard variant.
pub open spec fn is_random_id(id: u128) -> bool {
    id & 0x0000_0000_0000_f000_c000_0000_0000_0000u128
        == 0x0000_0000_0000_4000_8000_0000_0000_0000u128
}

} // verus!
