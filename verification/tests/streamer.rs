use salt_stream::auth::LoginReply;
use salt_stream::outcome::StreamError;
use salt_stream::streamer::{DataStreamer, StreamEvent};
use serde_json::{Number, Value};

const ENDPOINT: &str = "https://salt.example:8000";

fn id(n: u64) -> Value {
    let mut map = serde_json::Map::new();
    map.insert("id".to_string(), Value::Number(Number::from(n)));
    Value::Object(map)
}

fn message(body: &str) -> StreamEvent {
    StreamEvent::Message(body.to_string())
}

fn granted() -> LoginReply {
    LoginReply::Answer { status: 200, body: "{\"return\": [{\"token\": \"abc123\"}]}".to_string() }
}

fn logged_in() -> DataStreamer {
    let mut streamer = DataStreamer::new();
    assert!(streamer.on_login(ENDPOINT, &granted()).is_some());
    streamer
}

#[test]
fn a_new_streamer_runs_and_holds_nothing() {
    let streamer = DataStreamer::new();
    assert!(streamer.is_running());
    assert!(!streamer.is_stopped());
    assert_eq!(streamer.pending(), 0);
}

#[test]
fn login_yields_the_address_of_the_stream() {
    let mut streamer = DataStreamer::new();
    let address = streamer.on_login(ENDPOINT, &granted()).unwrap();
    assert_eq!(address.as_str(), "https://salt.example:8000/events?token=abc123");
    assert!(streamer.is_running());
    assert_eq!(streamer.pending(), 0);
    assert_eq!(streamer.next(), Ok(None));
}

#[test]
fn payloads_arrive_in_wire_order() {
    let mut streamer = logged_in();
    for n in 0..25u64 {
        assert!(streamer.on_event(message(&format!("{{\"id\":{}}}", n))));
    }
    assert_eq!(streamer.pending(), 25);
    for n in 0..25u64 {
        assert_eq!(streamer.next(), Ok(Some(id(n))));
    }
    assert_eq!(streamer.next(), Ok(None));
    assert!(streamer.is_running());
}

#[test]
fn a_malformed_message_does_not_end_the_stream() {
    let mut streamer = logged_in();
    assert!(streamer.on_event(message("{\"id\":1}")));
    assert!(streamer.on_event(message("{\"id\":")));
    assert!(streamer.on_event(message("{\"id\":3}")));
    assert!(streamer.is_running());
    assert_eq!(streamer.next(), Ok(Some(id(1))));
    assert_eq!(streamer.next(), Err(StreamError::Decode));
    assert_eq!(streamer.next(), Ok(Some(id(3))));
    assert_eq!(streamer.next(), Ok(None));
}

#[test]
fn a_refused_login_delivers_no_payload() {
    let mut streamer = DataStreamer::new();
    let reply = LoginReply::Answer {
        status: 401,
        body: "{\"return\": [{\"token\": \"abc123\"}]}".to_string(),
    };
    assert!(streamer.on_login(ENDPOINT, &reply).is_none());
    assert!(!streamer.is_running());
    assert!(!streamer.on_event(message("{\"id\":1}")));
    assert_eq!(streamer.next(), Err(StreamError::Auth));
    assert_eq!(streamer.next(), Err(StreamError::ChannelClosed));
    assert_eq!(streamer.next(), Err(StreamError::ChannelClosed));
}

#[test]
fn a_login_without_a_token_delivers_no_payload() {
    let mut streamer = DataStreamer::new();
    let reply = LoginReply::Answer { status: 200, body: "{\"return\": [{}]}".to_string() };
    assert!(streamer.on_login(ENDPOINT, &reply).is_none());
    assert_eq!(streamer.pending(), 1);
    assert_eq!(streamer.next(), Err(StreamError::Auth));
    assert_eq!(streamer.next(), Err(StreamError::ChannelClosed));
}

#[test]
fn an_unsent_login_ends_the_stream() {
    let mut streamer = DataStreamer::new();
    assert!(streamer.on_login(ENDPOINT, &LoginReply::Unsent).is_none());
    assert!(!streamer.is_running());
    assert_eq!(streamer.next(), Err(StreamError::Auth));
    assert_eq!(streamer.next(), Err(StreamError::ChannelClosed));
}

#[test]
fn an_address_that_is_no_url_ends_the_stream() {
    let mut streamer = DataStreamer::new();
    assert!(streamer.on_login("salt.example", &granted()).is_none());
    assert!(!streamer.is_running());
    assert_eq!(streamer.next(), Err(StreamError::Connection));
    assert_eq!(streamer.next(), Err(StreamError::ChannelClosed));
}

#[test]
fn stop_before_any_message_is_silent() {
    let mut streamer = logged_in();
    streamer.stop();
    assert!(streamer.is_stopped());
    assert!(streamer.is_running());
    assert!(!streamer.on_event(message("{\"id\":1}")));
    assert!(!streamer.is_running());
    assert_eq!(streamer.pending(), 0);
    assert_eq!(streamer.next(), Err(StreamError::ChannelClosed));
}

#[test]
fn stop_before_a_broken_connection_is_silent() {
    let mut streamer = logged_in();
    streamer.stop();
    assert!(!streamer.on_event(StreamEvent::Broken));
    assert_eq!(streamer.pending(), 0);
    assert_eq!(streamer.next(), Err(StreamError::ChannelClosed));
}

#[test]
fn stop_keeps_what_was_forwarded_before() {
    let mut streamer = logged_in();
    assert!(streamer.on_event(message("{\"id\":1}")));
    streamer.stop();
    assert!(!streamer.on_event(message("{\"id\":2}")));
    assert!(!streamer.on_event(message("{\"id\":3}")));
    assert_eq!(streamer.next(), Ok(Some(id(1))));
    assert_eq!(streamer.next(), Err(StreamError::ChannelClosed));
}

#[test]
fn an_idle_poll_returns_nothing_and_changes_nothing() {
    let mut streamer = logged_in();
    for _ in 0..100 {
        assert_eq!(streamer.next(), Ok(None));
    }
    assert!(streamer.is_running());
    assert!(!streamer.is_stopped());
    assert_eq!(streamer.pending(), 0);
    assert!(streamer.on_event(message("{\"id\":1}")));
    assert_eq!(streamer.next(), Ok(Some(id(1))));
}

#[test]
fn two_messages_then_a_closed_connection() {
    let mut streamer = logged_in();
    assert!(streamer.on_event(message("{\"id\":1}")));
    assert!(streamer.on_event(message("{\"id\":2}")));
    assert!(!streamer.on_event(StreamEvent::Broken));
    assert_eq!(streamer.next(), Ok(Some(id(1))));
    assert_eq!(streamer.next(), Ok(Some(id(2))));
    assert_eq!(streamer.next(), Err(StreamError::Connection));
    assert_eq!(streamer.next(), Err(StreamError::ChannelClosed));
    assert_eq!(streamer.next(), Err(StreamError::ChannelClosed));
}

#[test]
fn nothing_is_read_after_the_connection_broke() {
    let mut streamer = logged_in();
    assert!(!streamer.on_event(StreamEvent::Broken));
    assert!(!streamer.on_event(message("{\"id\":1}")));
    assert!(!streamer.on_event(StreamEvent::Broken));
    assert_eq!(streamer.pending(), 1);
    assert_eq!(streamer.next(), Err(StreamError::Connection));
    assert_eq!(streamer.next(), Err(StreamError::ChannelClosed));
}

#[test]
fn polls_may_come_while_messages_arrive() {
    let mut streamer = logged_in();
    assert_eq!(streamer.next(), Ok(None));
    assert!(streamer.on_event(message("{\"id\":1}")));
    assert_eq!(streamer.next(), Ok(Some(id(1))));
    assert_eq!(streamer.next(), Ok(None));
    assert!(streamer.on_event(message("{\"id\":2}")));
    assert!(streamer.on_event(message("{\"id\":3}")));
    assert_eq!(streamer.next(), Ok(Some(id(2))));
    assert!(streamer.on_event(message("{\"id\":4}")));
    assert_eq!(streamer.next(), Ok(Some(id(3))));
    assert_eq!(streamer.next(), Ok(Some(id(4))));
    assert_eq!(streamer.next(), Ok(None));
}

#[test]
fn a_released_streamer_ends_its_loop() {
    let mut streamer = logged_in();
    assert!(streamer.on_event(message("{\"id\":1}")));
    streamer.release();
    assert!(streamer.is_stopped());
    assert!(!streamer.on_event(message("{\"id\":2}")));
    assert!(!streamer.is_running());
    assert_eq!(streamer.pending(), 1);
}

#[test]
fn a_late_login_changes_nothing() {
    let mut streamer = logged_in();
    assert!(!streamer.on_event(StreamEvent::Broken));
    assert!(streamer.on_login(ENDPOINT, &granted()).is_none());
    assert!(streamer.on_login(ENDPOINT, &LoginReply::Unsent).is_none());
    assert_eq!(streamer.pending(), 1);
    assert_eq!(streamer.next(), Err(StreamError::Connection));
    assert_eq!(streamer.next(), Err(StreamError::ChannelClosed));
}
