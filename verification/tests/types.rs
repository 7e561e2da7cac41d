use anypay_events::types::CreateInvoiceRequest;
use anypay_events::types::Message;
use anypay_events::types::Subscription;
use std::collections::HashSet;

fn topic(kind: &str, id: &str) -> Subscription {
    Subscription { sub_type: kind.to_string(), id: id.to_string() }
}

#[test]
fn topics_are_equal_when_both_fields_are() {
    assert_eq!(topic("invoice", "123"), topic("invoice", "123"));
    assert_ne!(topic("invoice", "123"), topic("invoice", "*"));
    assert_ne!(topic("invoice", "123"), topic("account", "123"));
    assert_ne!(topic("invoice1", "23"), topic("invoice", "123"));
}

#[test]
fn equal_topics_count_once_in_a_set() {
    let mut topics = HashSet::new();
    assert!(topics.insert(topic("invoice", "1")));
    assert!(!topics.insert(topic("invoice", "1").clone()));
    assert!(topics.insert(topic("invoice", "2")));
    assert_eq!(topics.len(), 2);
}

#[test]
fn requests_compare_by_kind_and_fields() {
    let fetch = Message::FetchInvoice { id: "1".to_string() };
    assert_eq!(fetch.clone(), fetch);
    assert_ne!(
        Message::Subscribe { sub_type: "invoice".to_string(), id: "1".to_string() },
        Message::Unsubscribe { sub_type: "invoice".to_string(), id: "1".to_string() }
    );
}

#[test]
fn create_request_holds_its_fields() {
    let request = CreateInvoiceRequest {
        amount: 1500,
        currency: "EUR".to_string(),
        account_id: 12,
        status: "unpaid".to_string(),
        uid: "inv_1".to_string(),
        created_at: "2024-05-01T00:00:00Z".to_string(),
        updated_at: "2024-05-01T00:00:00Z".to_string(),
    };
    let copy = request.clone();
    assert_eq!(copy, request);
    assert_eq!(copy.amount, 1500);
    assert_eq!(copy.created_at, copy.updated_at);
}
