//! The wire format: one JSON object per frame.
//!
//! A request is an object with a string member `action` that names its
//! kind, and the members of that kind. A reply is an object with a string
//! member `status` and either a string member `message` or an object member
//! `data`.

use crate::json::as_integer;
use crate::json::as_text;
use crate::json::bool_value;
use crate::json::integer_value;
use crate::json::json_of;
use crate::json::json_parse;
use crate::json::json_text;
use crate::json::member;
use crate::json::no_members;
use crate::json::object_value;
use crate::json::parse;
use crate::json::put_member;
use crate::json::render;
use crate::json::text_value;
use crate::json::Json;
use crate::json::Members;
use crate::types::Invoice;
use crate::types::Message;
use crate::types::MessageView;
use crate::types::Reply;
use crate::types::Response;
use vstd::prelude::*;

verus! {

/// Why a frame was not taken for a request.
#[derive(Debug, Clone, Copy, PartialEq, Eq, Structural)]
pub enum DecodeError {
    /// The frame is not JSON text.
    Malformed,
    /// The frame is JSON, but not a request of a known kind with all its
    /// members.
    Unrecognized,
}

/// The two string members `type` and `id` that name a topic.
pub open spec fn topic_of(json: Json) -> Option<(Seq<char>, Seq<char>)> {
    match (json.text_member("type"@), json.text_member("id"@)) {
        (Some(sub_type), Some(id)) => Some((sub_type, id)),
        _ => None,
    }
}

/// The request that a JSON value stands for, if it stands for one.
pub open spec fn request_of(json: Json) -> Option<MessageView> {
    match json.text_member("action"@) {
        Some(action) => if action == "subscribe"@ {
            match topic_of(json) {
                Some((sub_type, id)) => Some(MessageView::Subscribe { sub_type, id }),
                None => None,
            }
        } else if action == "unsubscribe"@ {
            match topic_of(json) {
                Some((sub_type, id)) => Some(MessageView::Unsubscribe { sub_type, id }),
                None => None,
            }
        } else if action == "fetch_invoice"@ {
            match json.text_member("id"@) {
                Some(id) => Some(MessageView::FetchInvoice { id }),
                None => None,
            }
        } else if action == "create_invoice"@ {
            match (
                json.integer_member("amount"@),
                json.text_member("currency"@),
                json.integer_member("account_id"@),
            ) {
                (Some(amount), Some(currency), Some(account_id)) => Some(
                    MessageView::CreateInvoice { amount, currency, account_id },
                ),
                _ => None,
            }
        } else {
            None
        },
        None => None,
    }
}

/// What decoding makes of a frame.
pub open spec fn decoded(text: Seq<char>) -> Result<MessageView, DecodeError> {
    match json_parse(text) {
        Some(json) => match request_of(json) {
            Some(request) => Ok(request),
            None => Err(DecodeError::Unrecognized),
        },
        None => Err(DecodeError::Malformed),
    }
}

/// The string member of `value` under `key`.
fn text_field<'a>(value: &'a serde_json::Value, key: &str) -> (text: Option<&'a str>)
    ensures
        match text {
            Some(t) => json_of(*value).text_member(key@) == Some(t@),
            None => json_of(*value).text_member(key@) is None,
        },
{
    match member(value, key) {
        Some(inner) => as_text(inner),
        None => None,
    }
}

/// The integer member of `value` under `key`.
fn integer_field(value: &serde_json::Value, key: &str) -> (number: Option<i64>)
    ensures
        number == json_of(*value).integer_member(key@),
{
    match member(value, key) {
        Some(inner) => as_integer(inner),
        None => None,
    }
}

/// The topic that the members `type` and `id` of `value` name.
fn topic_fields<'a>(value: &'a serde_json::Value) -> (topic: Option<(&'a str, &'a str)>)
    ensures
        match topic {
            Some((sub_type, id)) => topic_of(json_of(*value)) == Some((sub_type@, id@)),
            None => topic_of(json_of(*value)) is None,
        },
{
    match text_field(value, "type") {
        Some(sub_type) => match text_field(value, "id") {
            Some(id) => Some((sub_type, id)),
            None => None,
        },
        None => None,
    }
}

/// Reads a request from a parsed frame.
pub fn recognize(value: &serde_json::Value) -> (request: Option<Message>)
    ensures
        match request {
            Some(message) => request_of(json_of(*value)) == Some(message@),
            None => request_of(json_of(*value)) is None,
        },
{
    let action = match text_field(value, "action") {
        Some(action) => action,
        None => {
            return None;
        },
    };
    if action.eq("subscribe") {
        match topic_fields(value) {
            Some((sub_type, id)) => Some(
                Message::Subscribe { sub_type: sub_type.to_owned(), id: id.to_owned() },
            ),
            None => None,
        }
    } else if action.eq("unsubscribe") {
        match topic_fields(value) {
            Some((sub_type, id)) => Some(
                Message::Unsubscribe { sub_type: sub_type.to_owned(), id: id.to_owned() },
            ),
            None => None,
        }
    } else if action.eq("fetch_invoice") {
        match text_field(value, "id") {
            Some(id) => Some(Message::FetchInvoice { id: id.to_owned() }),
            None => None,
        }
    } else if action.eq("create_invoice") {
        let amount = integer_field(value, "amount");
        let currency = text_field(value, "currency");
        let account_id = integer_field(value, "account_id");
        match (amount, currency, account_id) {
            (Some(amount), Some(currency), Some(account_id)) => Some(
                Message::CreateInvoice { amount, currency: currency.to_owned(), account_id },
            ),
            _ => None,
        }
    } else {
        None
    }
}

/// Reads a request from the text of a frame.
pub fn decode(text: &str) -> (request: Result<Message, DecodeError>)
    ensures
        request matches Ok(message) ==> decoded(text@) matches Ok(view) && view == message@,
        request matches Err(error) ==> decoded(text@) matches Err(cause) && cause == error,
{
    match parse(text) {
        Ok(value) => match recognize(&value) {
            Some(message) => Ok(message),
            None => Err(DecodeError::Unrecognized),
        },
        Err(_) => Err(DecodeError::Malformed),
    }
}

/// A status reply as JSON.
pub open spec fn response_json(response: Response) -> Json {
    Json::Object(
        Members::empty().insert("status"@, Json::Text(response.status@)).insert(
            "message"@,
            Json::Text(response.message@),
        ),
    )
}

/// An invoice as JSON. The members `address` and `hash` are left out where
/// the invoice has none.
pub open spec fn invoice_json(invoice: Invoice) -> Json {
    let always = Members::empty().insert("id"@, Json::Integer(invoice.id as int)).insert(
        "uid"@,
        Json::Text(invoice.uid@),
    ).insert("amount"@, Json::Integer(invoice.amount as int)).insert(
        "currency"@,
        Json::Text(invoice.currency@),
    ).insert("status"@, Json::Text(invoice.status@)).insert(
        "createdAt"@,
        Json::Text(invoice.created_at@),
    ).insert("updatedAt"@, Json::Text(invoice.updated_at@)).insert(
        "account_id"@,
        Json::Integer(invoice.account_id as int),
    ).insert("complete"@, Json::Bool(invoice.complete));
    let addressed = match invoice.address {
        Some(address) => always.insert("address"@, Json::Text(address@)),
        None => always,
    };
    let hashed = match invoice.hash {
        Some(hash) => addressed.insert("hash"@, Json::Text(hash@)),
        None => addressed,
    };
    Json::Object(hashed)
}

/// A reply as JSON.
pub open spec fn reply_json(reply: Reply) -> Json {
    match reply {
        Reply::Status(response) => response_json(response),
        Reply::Record(invoice) => Json::Object(
            Members::empty().insert("status"@, Json::Text("success"@)).insert(
                "data"@,
                invoice_json(invoice),
            ),
        ),
    }
}

/// Builds the JSON value of a status reply.
pub fn response_value(response: &Response) -> (value: serde_json::Value)
    ensures
        json_of(value) == response_json(*response),
{
    let mut members = no_members();
    put_member(&mut members, "status", text_value(response.status.clone()));
    put_member(&mut members, "message", text_value(response.message.clone()));
    object_value(members)
}

/// Builds the JSON value of an invoice.
pub fn invoice_value(invoice: &Invoice) -> (value: serde_json::Value)
    ensures
        json_of(value) == invoice_json(*invoice),
{
    let mut members = no_members();
    put_member(&mut members, "id", integer_value(invoice.id));
    put_member(&mut members, "uid", text_value(invoice.uid.clone()));
    put_member(&mut members, "amount", integer_value(invoice.amount));
    put_member(&mut members, "currency", text_value(invoice.currency.clone()));
    put_member(&mut members, "status", text_value(invoice.status.clone()));
    put_member(&mut members, "createdAt", text_value(invoice.created_at.clone()));
    put_member(&mut members, "updatedAt", text_value(invoice.updated_at.clone()));
    put_member(&mut members, "account_id", integer_value(invoice.account_id));
    put_member(&mut members, "complete", bool_value(invoice.complete));
    match &invoice.address {
        Some(address) => {
            put_member(&mut members, "address", text_value(address.clone()));
        },
        None => {},
    }
    match &invoice.hash {
        Some(hash) => {
            put_member(&mut members, "hash", text_value(hash.clone()));
        },
        None => {},
    }
    object_value(members)
}

/// Builds the JSON value of a reply.
pub fn reply_value(reply: &Reply) -> (value: serde_json::Value)
    ensures
        json_of(value) == reply_json(*reply),
{
    match reply {
        Reply::Status(response) => response_value(response),
        Reply::Record(invoice) => {
            let mut members = no_members();
            put_member(&mut members, "status", text_value("success".to_owned()));
            put_member(&mut members, "data", invoice_value(invoice));
            object_value(members)
        },
    }
}

/// Writes a reply as the text of a frame.
pub fn encode_reply(reply: &Reply) -> (text: String)
    ensures
        text@ == json_text(reply_json(*reply)),
{
    let value = reply_value(reply);
    render(&value)
}

} // verus!
