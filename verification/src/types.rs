//! The vocabulary of the relay: requests, replies, topics and records.

use vstd::prelude::*;

verus! {

/// A request sent by a client, one per inbound frame.
#[derive(Debug, Clone, PartialEq, Eq)]
pub enum Message {
    Subscribe { sub_type: String, id: String },
    Unsubscribe { sub_type: String, id: String },
    FetchInvoice { id: String },
    CreateInvoice { amount: i64, currency: String, account_id: i64 },
}

/// What a [`Message`] holds, as mathematical values.
pub enum MessageView {
    Subscribe { sub_type: Seq<char>, id: Seq<char> },
    Unsubscribe { sub_type: Seq<char>, id: Seq<char> },
    FetchInvoice { id: Seq<char> },
    CreateInvoice { amount: i64, currency: Seq<char>, account_id: i64 },
}

impl View for Message {
    type V = MessageView;

    open spec fn view(&self) -> MessageView {
        match *self {
            Message::Subscribe { sub_type, id } => MessageView::Subscribe {
                sub_type: sub_type@,
                id: id@,
            },
            Message::Unsubscribe { sub_type, id } => MessageView::Unsubscribe {
                sub_type: sub_type@,
                id: id@,
            },
            Message::FetchInvoice { id } => MessageView::FetchInvoice { id: id@ },
            Message::CreateInvoice { amount, currency, account_id } => MessageView::CreateInvoice {
                amount,
                currency: currency@,
                account_id,
            },
        }
    }
}

/// A status reply: `status` is `"success"` or `"error"`, `message` says why.
#[derive(Debug, Clone, PartialEq, Eq)]
pub struct Response {
    pub status: String,
    pub message: String,
}

/// What goes back to a client: a status with its message, or a record.
#[derive(Debug, Clone, PartialEq, Eq)]
pub enum Reply {
    /// A status reply.
    Status(Response),
    /// A successful reply that carries an invoice.
    Record(Invoice),
}

/// A topic: the kind of resource and the identifier of one resource of
/// that kind. Two topics are the same when both fields are equal.
#[derive(Debug, Clone, Hash, Eq, PartialEq)]
pub struct Subscription {
    pub sub_type: String,
    pub id: String,
}

impl View for Subscription {
    type V = (Seq<char>, Seq<char>);

    open spec fn view(&self) -> (Seq<char>, Seq<char>) {
        (self.sub_type@, self.id@)
    }
}

/// The fields of an invoice to be created in the record store.
#[derive(Debug, Clone, PartialEq, Eq)]
pub struct CreateInvoiceRequest {
    pub amount: i64,
    pub currency: String,
    pub account_id: i64,
    pub status: String,
    pub uid: String,
    pub created_at: String,
    pub updated_at: String,
}

/// An invoice as the record store returns it.
#[derive(Debug, Clone, PartialEq, Eq)]
pub struct Invoice {
    pub id: i64,
    pub uid: String,
    pub amount: i64,
    pub currency: String,
    pub status: String,
    pub created_at: String,
    pub updated_at: String,
    pub account_id: i64,
    pub address: Option<String>,
    pub hash: Option<String>,
    pub complete: bool,
}

} // verus!
