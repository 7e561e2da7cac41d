use anypay_events::codec::encode_reply;
use anypay_events::event_dispatcher::Delivery;
use anypay_events::event_dispatcher::EventDispatcher;
use anypay_events::replies::created_reply;
use anypay_events::replies::fetched_reply;
use anypay_events::replies::invalid_format_reply;
use anypay_events::replies::subscribed_reply;
use anypay_events::replies::unsubscribed_reply;
use anypay_events::server::AnypayEventsServer;
use anypay_events::connection::Connection;
use anypay_events::connection::ConnectionState;
use anypay_events::connection::Directive;
use anypay_events::server::Handled;
use anypay_events::connection::Inbound;
use anypay_events::session::SendError;
use anypay_events::session::Session;
use anypay_events::types::Invoice;
use anypay_events::types::Message;
use anypay_events::types::Reply;
use anypay_events::types::Response;
use futures::channel::mpsc::unbounded;
use futures::channel::mpsc::TryRecvError;
use futures::channel::mpsc::UnboundedReceiver;
use serde_json::Value;

fn server() -> AnypayEventsServer {
    AnypayEventsServer::new("127.0.0.1:8080", "https://db.example", "anon", "service")
}

fn connect(server: &mut AnypayEventsServer) -> (Connection, UnboundedReceiver<String>) {
    let (sender, receiver) = unbounded::<String>();
    (server.open_session(sender).unwrap(), receiver)
}

fn json(text: &str) -> Value {
    serde_json::from_str::<Value>(text).unwrap()
}

fn text(frame: &str) -> Inbound {
    Inbound::Text(frame.to_string())
}

fn status(status: &str, message: &str) -> Reply {
    Reply::Status(Response { status: status.to_string(), message: message.to_string() })
}

fn invoice() -> Invoice {
    Invoice {
        id: 1,
        uid: "inv_1".to_string(),
        amount: 100,
        currency: "USD".to_string(),
        status: "paid".to_string(),
        created_at: "2024-05-01T00:00:00Z".to_string(),
        updated_at: "2024-05-02T00:00:00Z".to_string(),
        account_id: 8,
        address: Some("addr".to_string()),
        hash: None,
        complete: true,
    }
}

#[test]
fn new_server_keeps_its_settings_and_is_empty() {
    let server = server();
    assert_eq!(server.addr(), "127.0.0.1:8080");
    assert_eq!(server.supabase_url(), "https://db.example");
    assert_eq!(server.supabase_anon_key(), "anon");
    assert_eq!(server.supabase_service_role_key(), "service");
    assert!(!server.is_live(0));
    assert!(!server.is_subscribed(0, "invoice", "42"));
}

#[test]
fn open_session_registers_a_connected_session_with_a_random_id() {
    let mut server = server();
    let (first, _rx1) = connect(&mut server);
    let (second, _rx2) = connect(&mut server);
    let a = first.id();
    let b = second.id();
    assert_ne!(a, b);
    assert_eq!((a >> 76) & 0xf, 4);
    assert_eq!((a >> 62) & 0x3, 2);
    assert_eq!((b >> 76) & 0xf, 4);
    assert_eq!((b >> 62) & 0x3, 2);
    assert_eq!(first.state(), ConnectionState::Connected);
    assert!(server.is_live(a));
    assert!(server.is_live(b));
}

#[test]
fn register_refuses_an_identifier_that_is_live() {
    let mut server = server();
    let (s1, mut r1) = unbounded::<String>();
    let (s2, mut r2) = unbounded::<String>();
    let mut first = server.register(Session::new(5, s1)).unwrap();
    assert_eq!(first.id(), 5);
    assert!(server.register(Session::new(5, s2)).is_none());
    assert!(server.is_live(5));
    assert_eq!(
        server.on_event(&mut first, text("{\"action\":\"subscribe\",\"type\":\"invoice\",\"id\":\"1\"}")),
        Directive::Continue
    );
    server.publish("invoice", "1", "event");
    assert!(r1.try_recv().is_ok());
    assert_eq!(r1.try_recv(), Ok("event".to_string()));
    assert_eq!(r2.try_recv(), Err(TryRecvError::Closed));
    server.close(&mut first);
    let (s3, _r3) = unbounded::<String>();
    assert!(server.register(Session::new(5, s3)).is_some());
}

#[test]
fn subscribe_is_confirmed_and_a_later_publish_is_delivered() {
    let mut server = server();
    let (mut connection, mut rx) = connect(&mut server);
    let id = connection.id();
    let next = server.on_event(
        &mut connection,
        text("{\"action\":\"subscribe\",\"type\":\"invoice\",\"id\":\"42\"}"),
    );
    assert_eq!(next, Directive::Continue);
    assert_eq!(connection.state(), ConnectionState::Connected);
    assert!(server.is_subscribed(id, "invoice", "42"));
    assert_eq!(
        json(&rx.try_recv().unwrap()),
        json("{\"status\":\"success\",\"message\":\"Subscribed to invoice 42\"}")
    );
    assert_eq!(rx.try_recv(), Err(TryRecvError::Empty));
    let report = server.publish("invoice", "42", "{\"status\":\"success\",\"data\":{\"paid\":true}}");
    assert_eq!(report, Delivery { delivered: vec![id], dropped: vec![] });
    assert_eq!(rx.try_recv(), Ok("{\"status\":\"success\",\"data\":{\"paid\":true}}".to_string()));
    assert_eq!(rx.try_recv(), Err(TryRecvError::Empty));
}

#[test]
fn unsubscribe_is_confirmed_and_ends_delivery() {
    let mut server = server();
    let (mut connection, mut rx) = connect(&mut server);
    let id = connection.id();
    server.on_event(&mut connection, text("{\"action\":\"subscribe\",\"type\":\"invoice\",\"id\":\"42\"}"));
    let next = server.on_event(
        &mut connection,
        text("{\"action\":\"unsubscribe\",\"type\":\"invoice\",\"id\":\"42\"}"),
    );
    assert_eq!(next, Directive::Continue);
    assert!(!server.is_subscribed(id, "invoice", "42"));
    assert!(rx.try_recv().is_ok());
    assert_eq!(
        json(&rx.try_recv().unwrap()),
        json("{\"status\":\"success\",\"message\":\"Unsubscribed from invoice 42\"}")
    );
    let report = server.publish("invoice", "42", "event");
    assert_eq!(report, Delivery { delivered: vec![], dropped: vec![] });
    assert_eq!(rx.try_recv(), Err(TryRecvError::Empty));
}

#[test]
fn fetch_of_a_missing_invoice_is_answered_with_not_found() {
    let mut server = server();
    let (mut connection, mut rx) = connect(&mut server);
    let next = server.on_event(
        &mut connection,
        text("{\"action\":\"fetch_invoice\",\"id\":\"does-not-exist\"}"),
    );
    assert_eq!(next, Directive::Fetch { id: "does-not-exist".to_string(), expand_related: true });
    assert_eq!(connection.state(), ConnectionState::Connected);
    assert_eq!(rx.try_recv(), Err(TryRecvError::Empty));
    assert_eq!(connection.on_fetched(Ok(None)), Directive::Continue);
    assert_eq!(
        json(&rx.try_recv().unwrap()),
        json("{\"status\":\"error\",\"message\":\"Invoice not found\"}")
    );
    assert_eq!(rx.try_recv(), Err(TryRecvError::Empty));
}

#[test]
fn fetch_of_an_invoice_is_answered_with_the_record() {
    let mut server = server();
    let (mut connection, mut rx) = connect(&mut server);
    server.on_event(&mut connection, text("{\"action\":\"fetch_invoice\",\"id\":\"inv_1\"}"));
    assert_eq!(connection.on_fetched(Ok(Some(invoice()))), Directive::Continue);
    assert_eq!(
        json(&rx.try_recv().unwrap()),
        json(
            "{\"status\":\"success\",\"data\":{\"id\":1,\"uid\":\"inv_1\",\"amount\":100,\
             \"currency\":\"USD\",\"status\":\"paid\",\"createdAt\":\"2024-05-01T00:00:00Z\",\
             \"updatedAt\":\"2024-05-02T00:00:00Z\",\"account_id\":8,\"address\":\"addr\",\
             \"complete\":true}}"
        )
    );
}

#[test]
fn fetch_that_fails_is_answered_with_the_cause() {
    let mut server = server();
    let (mut connection, mut rx) = connect(&mut server);
    server.on_event(&mut connection, text("{\"action\":\"fetch_invoice\",\"id\":\"inv_1\"}"));
    assert_eq!(connection.on_fetched(Err("connection refused".to_string())), Directive::Continue);
    assert_eq!(
        json(&rx.try_recv().unwrap()),
        json("{\"status\":\"error\",\"message\":\"Error fetching invoice: connection refused\"}")
    );
}

#[test]
fn create_is_handed_on_and_answered_with_the_record_or_the_cause() {
    let mut server = server();
    let (mut connection, mut rx) = connect(&mut server);
    let next = server.on_event(
        &mut connection,
        text("{\"action\":\"create_invoice\",\"amount\":1500,\"currency\":\"EUR\",\"account_id\":12}"),
    );
    assert_eq!(
        next,
        Directive::Create { amount: 1500, currency: "EUR".to_string(), account_id: 12 }
    );
    assert_eq!(rx.try_recv(), Err(TryRecvError::Empty));
    assert_eq!(connection.on_created(Ok(invoice())), Directive::Continue);
    assert_eq!(json(&rx.try_recv().unwrap()), json(&encode_reply(&Reply::Record(invoice()))));
    assert_eq!(connection.on_created(Err("quota exceeded".to_string())), Directive::Continue);
    assert_eq!(
        json(&rx.try_recv().unwrap()),
        json("{\"status\":\"error\",\"message\":\"Error creating invoice: quota exceeded\"}")
    );
}

#[test]
fn invalid_frame_is_answered_and_the_connection_stays_usable() {
    let mut server = server();
    let (mut connection, mut rx) = connect(&mut server);
    let id = connection.id();
    assert_eq!(server.on_event(&mut connection, text("this is not json")), Directive::Continue);
    assert_eq!(connection.state(), ConnectionState::Connected);
    assert_eq!(
        json(&rx.try_recv().unwrap()),
        json("{\"status\":\"error\",\"message\":\"Invalid message format\"}")
    );
    assert_eq!(server.on_event(&mut connection, text("{\"action\":\"jump\"}")), Directive::Continue);
    assert_eq!(
        json(&rx.try_recv().unwrap()),
        json("{\"status\":\"error\",\"message\":\"Invalid message format\"}")
    );
    assert_eq!(
        server.on_event(&mut connection, text("{\"action\":\"subscribe\",\"type\":\"invoice\",\"id\":\"42\"}")),
        Directive::Continue
    );
    assert!(server.is_subscribed(id, "invoice", "42"));
    assert_eq!(
        json(&rx.try_recv().unwrap()),
        json("{\"status\":\"success\",\"message\":\"Subscribed to invoice 42\"}")
    );
    assert!(server.is_live(id));
}

#[test]
fn abrupt_disconnect_does_not_disturb_a_later_publish() {
    let mut server = server();
    let (mut gone, rx_gone) = connect(&mut server);
    let (mut stays, mut rx_stays) = connect(&mut server);
    let gone_id = gone.id();
    let stays_id = stays.id();
    server.on_event(&mut gone, text("{\"action\":\"subscribe\",\"type\":\"invoice\",\"id\":\"42\"}"));
    server.on_event(&mut stays, text("{\"action\":\"subscribe\",\"type\":\"invoice\",\"id\":\"42\"}"));
    assert!(rx_stays.try_recv().is_ok());
    drop(rx_gone);
    let report = server.publish("invoice", "42", "event");
    assert_eq!(report, Delivery { delivered: vec![stays_id], dropped: vec![gone_id] });
    assert_eq!(rx_stays.try_recv(), Ok("event".to_string()));
    assert!(!server.is_subscribed(gone_id, "invoice", "42"));
    assert_eq!(server.on_event(&mut gone, Inbound::ReadError), Directive::Shutdown);
    server.close(&mut gone);
    assert!(!server.is_live(gone_id));
    let report = server.publish("invoice", "42", "again");
    assert_eq!(report, Delivery { delivered: vec![stays_id], dropped: vec![] });
    assert_eq!(rx_stays.try_recv(), Ok("again".to_string()));
}

#[test]
fn close_deregisters_the_session_once() {
    let mut server = server();
    let (mut connection, mut rx) = connect(&mut server);
    let (mut other, mut rx_other) = connect(&mut server);
    let id = connection.id();
    let other_id = other.id();
    server.on_event(&mut connection, text("{\"action\":\"subscribe\",\"type\":\"invoice\",\"id\":\"1\"}"));
    server.on_event(&mut connection, text("{\"action\":\"subscribe\",\"type\":\"invoice\",\"id\":\"2\"}"));
    server.on_event(&mut other, text("{\"action\":\"subscribe\",\"type\":\"invoice\",\"id\":\"1\"}"));
    assert_eq!(server.on_event(&mut connection, Inbound::Closed), Directive::Shutdown);
    assert_eq!(connection.state(), ConnectionState::Closing);
    assert!(server.is_live(id));
    server.close(&mut connection);
    assert_eq!(connection.state(), ConnectionState::Closed);
    assert!(!server.is_live(id));
    assert!(!server.is_subscribed(id, "invoice", "1"));
    assert!(!server.is_subscribed(id, "invoice", "2"));
    assert!(server.is_subscribed(other_id, "invoice", "1"));
    assert!(rx.try_recv().is_ok());
    assert!(rx.try_recv().is_ok());
    assert!(rx_other.try_recv().is_ok());
    let report = server.publish("invoice", "1", "event");
    assert_eq!(report, Delivery { delivered: vec![other_id], dropped: vec![] });
    assert_eq!(rx.try_recv(), Err(TryRecvError::Empty));
    assert_eq!(rx_other.try_recv(), Ok("event".to_string()));
    let (s, _r) = unbounded::<String>();
    assert!(server.register(Session::new(id, s)).is_some());
    server.close(&mut connection);
    assert_eq!(connection.state(), ConnectionState::Closed);
    assert!(server.is_live(id));
}

#[test]
fn transport_events_start_closing() {
    let mut server = server();
    for event in [Inbound::ReadError, Inbound::Closed, Inbound::WriterFailed] {
        let (mut connection, mut rx) = connect(&mut server);
        assert_eq!(server.on_event(&mut connection, event), Directive::Shutdown);
        assert_eq!(connection.state(), ConnectionState::Closing);
        assert_eq!(rx.try_recv(), Err(TryRecvError::Empty));
    }
}

#[test]
fn frame_without_text_is_passed_over() {
    let mut server = server();
    let (mut connection, mut rx) = connect(&mut server);
    assert_eq!(server.on_event(&mut connection, Inbound::Other), Directive::Continue);
    assert_eq!(connection.state(), ConnectionState::Connected);
    assert_eq!(rx.try_recv(), Err(TryRecvError::Empty));
}

#[test]
fn nothing_is_handled_once_closing() {
    let mut server = server();
    let (mut connection, mut rx) = connect(&mut server);
    let id = connection.id();
    server.on_event(&mut connection, Inbound::ReadError);
    let next = server.on_event(
        &mut connection,
        text("{\"action\":\"subscribe\",\"type\":\"invoice\",\"id\":\"42\"}"),
    );
    assert_eq!(next, Directive::Shutdown);
    assert_eq!(connection.state(), ConnectionState::Closing);
    assert!(!server.is_subscribed(id, "invoice", "42"));
    assert_eq!(connection.on_fetched(Ok(None)), Directive::Shutdown);
    assert_eq!(connection.on_created(Err("x".to_string())), Directive::Shutdown);
    assert_eq!(connection.answer(&invalid_format_reply()), Directive::Shutdown);
    assert_eq!(rx.try_recv(), Err(TryRecvError::Empty));
    server.close(&mut connection);
    assert_eq!(server.on_event(&mut connection, Inbound::Other), Directive::Shutdown);
    assert_eq!(connection.state(), ConnectionState::Closed);
}

#[test]
fn reply_that_cannot_be_written_starts_closing() {
    let mut server = server();
    let (mut connection, rx) = connect(&mut server);
    let id = connection.id();
    drop(rx);
    let next = server.on_event(
        &mut connection,
        text("{\"action\":\"subscribe\",\"type\":\"invoice\",\"id\":\"42\"}"),
    );
    assert_eq!(next, Directive::Shutdown);
    assert_eq!(connection.state(), ConnectionState::Closing);
    assert!(server.is_subscribed(id, "invoice", "42"));
    server.close(&mut connection);
    assert!(!server.is_subscribed(id, "invoice", "42"));
    assert!(!server.is_live(id));
}

#[test]
fn settle_follows_the_channel() {
    let (sender, _rx) = unbounded::<String>();
    let mut connection = Connection::new(Session::new(1, sender));
    assert_eq!(connection.settle(Ok(())), Directive::Continue);
    assert_eq!(connection.state(), ConnectionState::Connected);
    assert_eq!(connection.settle(Err(SendError::Disconnected)), Directive::Shutdown);
    assert_eq!(connection.state(), ConnectionState::Closing);
    assert_eq!(connection.settle(Ok(())), Directive::Shutdown);
    assert_eq!(connection.state(), ConnectionState::Closing);
}

#[test]
fn handle_message_subscribes_and_confirms() {
    let (sender, _rx) = unbounded::<String>();
    let session = Session::new(9, sender);
    let mut dispatcher = EventDispatcher::new();
    let outcome = AnypayEventsServer::handle_message(
        Message::Subscribe { sub_type: "invoice".to_string(), id: "42".to_string() },
        &session,
        &mut dispatcher,
    );
    assert_eq!(outcome, Handled::Reply(status("success", "Subscribed to invoice 42")));
    assert!(dispatcher.is_subscribed(9, "invoice", "42"));
    let outcome = AnypayEventsServer::handle_message(
        Message::Unsubscribe { sub_type: "invoice".to_string(), id: "42".to_string() },
        &session,
        &mut dispatcher,
    );
    assert_eq!(outcome, Handled::Reply(status("success", "Unsubscribed from invoice 42")));
    assert!(!dispatcher.is_subscribed(9, "invoice", "42"));
}

#[test]
fn handle_message_names_the_call_to_the_record_store() {
    let (sender, _rx) = unbounded::<String>();
    let session = Session::new(9, sender);
    let mut dispatcher = EventDispatcher::new();
    assert_eq!(
        AnypayEventsServer::handle_message(
            Message::FetchInvoice { id: "inv_7".to_string() },
            &session,
            &mut dispatcher
        ),
        Handled::Fetch { id: "inv_7".to_string(), expand_related: true }
    );
    assert_eq!(
        AnypayEventsServer::handle_message(
            Message::CreateInvoice { amount: 5, currency: "BTC".to_string(), account_id: 2 },
            &session,
            &mut dispatcher
        ),
        Handled::Create { amount: 5, currency: "BTC".to_string(), account_id: 2 }
    );
    assert_eq!(dispatcher.subscribers("invoice", "inv_7"), Vec::<u128>::new());
}

#[test]
fn replies_to_answers_of_the_record_store() {
    assert_eq!(fetched_reply(Ok(Some(invoice()))), Reply::Record(invoice()));
    assert_eq!(fetched_reply(Ok(None)), status("error", "Invoice not found"));
    assert_eq!(
        fetched_reply(Err("timed out".to_string())),
        status("error", "Error fetching invoice: timed out")
    );
    assert_eq!(subscribed_reply("invoice", "42"), status("success", "Subscribed to invoice 42"));
    assert_eq!(subscribed_reply("", ""), status("success", "Subscribed to  "));
    assert_eq!(
        unsubscribed_reply("invoice", "42"),
        status("success", "Unsubscribed from invoice 42")
    );
    assert_eq!(created_reply(Ok(invoice())), Reply::Record(invoice()));
    assert_eq!(
        created_reply(Err("timed out".to_string())),
        status("error", "Error creating invoice: timed out")
    );
    assert_eq!(invalid_format_reply(), status("error", "Invalid message format"));
}

#[test]
fn replies_and_events_share_one_queue_in_order() {
    let mut server = server();
    let (mut connection, mut rx) = connect(&mut server);
    server.on_event(&mut connection, text("{\"action\":\"subscribe\",\"type\":\"invoice\",\"id\":\"42\"}"));
    server.publish("invoice", "42", "event one");
    server.on_event(&mut connection, text("oops"));
    server.publish("invoice", "42", "event two");
    assert_eq!(
        json(&rx.try_recv().unwrap()),
        json("{\"status\":\"success\",\"message\":\"Subscribed to invoice 42\"}")
    );
    assert_eq!(rx.try_recv(), Ok("event one".to_string()));
    assert_eq!(
        json(&rx.try_recv().unwrap()),
        json("{\"status\":\"error\",\"message\":\"Invalid message format\"}")
    );
    assert_eq!(rx.try_recv(), Ok("event two".to_string()));
    assert_eq!(rx.try_recv(), Err(TryRecvError::Empty));
}

#[test]
fn hang_up_starts_closing_once() {
    let (sender, _rx) = unbounded::<String>();
    let mut connection = Connection::new(Session::new(3, sender));
    assert_eq!(connection.id(), 3);
    assert_eq!(connection.hang_up(), Directive::Shutdown);
    assert_eq!(connection.state(), ConnectionState::Closing);
    assert_eq!(connection.hang_up(), Directive::Shutdown);
    assert_eq!(connection.state(), ConnectionState::Closing);
}

#[test]
fn answer_writes_the_encoded_reply_through_the_session() {
    let (sender, mut rx) = unbounded::<String>();
    let mut connection = Connection::new(Session::new(3, sender));
    let reply = status("success", "Subscribed to invoice 42");
    assert_eq!(connection.answer(&reply), Directive::Continue);
    assert_eq!(rx.try_recv(), Ok(encode_reply(&reply)));
    assert_eq!(connection.session().send("direct".to_string()), Ok(()));
    assert_eq!(rx.try_recv(), Ok("direct".to_string()));
    assert_eq!(connection.session().id(), 3);
    drop(rx);
    assert_eq!(connection.answer(&reply), Directive::Shutdown);
    assert_eq!(connection.state(), ConnectionState::Closing);
}

#[test]
fn handle_frame_answers_what_is_no_request() {
    let (sender, _rx) = unbounded::<String>();
    let session = Session::new(9, sender);
    let mut dispatcher = EventDispatcher::new();
    assert_eq!(
        AnypayEventsServer::handle_frame("{\"action\":", &session, &mut dispatcher),
        Handled::Reply(status("error", "Invalid message format"))
    );
    assert_eq!(
        AnypayEventsServer::handle_frame("{\"action\":\"subscribe\"}", &session, &mut dispatcher),
        Handled::Reply(status("error", "Invalid message format"))
    );
    assert_eq!(
        AnypayEventsServer::handle_frame(
            "{\"action\":\"subscribe\",\"type\":\"account\",\"id\":\"a b\"}",
            &session,
            &mut dispatcher
        ),
        Handled::Reply(status("success", "Subscribed to account a b"))
    );
    assert!(dispatcher.is_subscribed(9, "account", "a b"));
    assert_eq!(
        AnypayEventsServer::handle_frame(
            "{\"action\":\"fetch_invoice\",\"id\":\"x\"}",
            &session,
            &mut dispatcher
        ),
        Handled::Fetch { id: "x".to_string(), expand_related: true }
    );
}

#[test]
fn open_session_succeeds_beside_sessions_with_other_identifiers() {
    let mut server = server();
    let (s1, _r1) = unbounded::<String>();
    let (s2, _r2) = unbounded::<String>();
    assert!(server.register(Session::new(0, s1)).is_some());
    assert!(server.register(Session::new(u128::MAX, s2)).is_some());
    for _ in 0..50 {
        let (sender, _receiver) = unbounded::<String>();
        let connection = server.open_session(sender).unwrap();
        assert_eq!(connection.id() & 0xf000_c000_0000_0000_0000, 0x4000_8000_0000_0000_0000);
        assert!(server.is_live(connection.id()));
        assert_eq!(connection.state(), ConnectionState::Connected);
    }
}
