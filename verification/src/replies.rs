//! The replies of the relay and their texts.

use crate::types::Invoice;
use crate::types::Reply;
use crate::types::Response;
use vstd::prelude::*;
use vstd::string::*;

verus! {

/// The confirmation of a subscription.
pub open spec fn subscribed_text(kind: Seq<char>, id: Seq<char>) -> Seq<char> {
    "Subscribed to "@ + kind + " "@ + id
}

/// The confirmation of the end of a subscription.
pub open spec fn unsubscribed_text(kind: Seq<char>, id: Seq<char>) -> Seq<char> {
    "Unsubscribed from "@ + kind + " "@ + id
}

/// The message for a failed read from the record store.
pub open spec fn fetch_failed_text(cause: Seq<char>) -> Seq<char> {
    "Error fetching invoice: "@ + cause
}

/// The message for a failed write to the record store.
pub open spec fn create_failed_text(cause: Seq<char>) -> Seq<char> {
    "Error creating invoice: "@ + cause
}

/// Whether `reply` is the status reply with this status and message.
pub open spec fn says(reply: Reply, status: Seq<char>, message: Seq<char>) -> bool {
    reply matches Reply::Status(response) && response.status@ == status && response.message@
        == message
}

/// A status reply with the given status and message.
fn status_reply(status: &str, message: String) -> (reply: Reply)
    ensures
        says(reply, status@, message@),
{
    Reply::Status(Response { status: status.to_owned(), message })
}

/// `lead`, `kind`, a space and `id`, in one string.
fn topic_text(lead: &str, kind: &str, id: &str) -> (text: String)
    ensures
        text@ == lead@ + kind@ + " "@ + id@,
{
    let mut text = lead.to_owned();
    text.append(kind);
    text.append(" ");
    text.append(id);
    text
}

/// The reply that confirms a subscription to the topic.
pub fn subscribed_reply(kind: &str, id: &str) -> (reply: Reply)
    ensures
        says(reply, "success"@, subscribed_text(kind@, id@)),
{
    status_reply("success", topic_text("Subscribed to ", kind, id))
}

/// The reply that confirms the end of a subscription to the topic.
pub fn unsubscribed_reply(kind: &str, id: &str) -> (reply: Reply)
    ensures
        says(reply, "success"@, unsubscribed_text(kind@, id@)),
{
    status_reply("success", topic_text("Unsubscribed from ", kind, id))
}

/// The reply to a frame that holds no request.
pub fn invalid_format_reply() -> (reply: Reply)
    ensures
        says(reply, "error"@, "Invalid message format"@),
{
    status_reply("error", "Invalid message format".to_owned())
}

/// The reply to a fetch request, from the answer of the record store: the
/// invoice, that there is none, or the cause of the failure.
pub fn fetched_reply(answer: Result<Option<Invoice>, String>) -> (reply: Reply)
    ensures
        match answer {
            Ok(Some(invoice)) => reply == Reply::Record(invoice),
            Ok(None) => says(reply, "error"@, "Invoice not found"@),
            Err(cause) => says(reply, "error"@, fetch_failed_text(cause@)),
        },
{
    match answer {
        Ok(Some(invoice)) => Reply::Record(invoice),
        Ok(None) => status_reply("error", "Invoice not found".to_owned()),
        Err(cause) => {
            let mut message = "Error fetching invoice: ".to_owned();
            message.append(cause.as_str());
            status_reply("error", message)
        },
    }
}

/// The reply to a create request, from the answer of the record store: the
/// new invoice, or the cause of the failure.
pub fn created_reply(answer: Result<Invoice, String>) -> (reply: Reply)
    ensures
        match answer {
            Ok(invoice) => reply == Reply::Record(invoice),
            Err(cause) => says(reply, "error"@, create_failed_text(cause@)),
        },
{
    match answer {
        Ok(invoice) => Reply::Record(invoice),
        Err(cause) => {
            let mut message = "Error creating invoice: ".to_owned();
            message.append(cause.as_str());
            status_reply("error", message)
        },
    }
}

} // verus!
