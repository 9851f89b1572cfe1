use chat_fanout::hub::{Hub, PublishError, Recv, DEFAULT_CAPACITY};
use chat_fanout::message::{Message, ValidationError, ROOM_MAX_CHARS, USERNAME_MAX_CHARS};
use chat_fanout::server::{post, rocket};
use chat_fanout::shutdown::Shutdown;
use chat_fanout::stream::{StreamEvent, SubscriberStream};

fn msg(room: &str, username: &str, body: &str) -> Message {
    Message::new(room.to_string(), username.to_string(), body.to_string()).unwrap()
}

fn numbered(i: usize) -> Message {
    msg("lobby", "bot", &format!("m{}", i))
}

fn expect_body(r: Recv, body: &str) {
    match r {
        Recv::Message(m) => assert_eq!(m.body(), body),
        other => panic!("expected a message, got {:?}", other),
    }
}

fn expect_emit(e: StreamEvent) -> Message {
    match e {
        StreamEvent::Emit(m) => m,
        other => panic!("expected an emitted message, got {:?}", other),
    }
}

#[test]
fn room_of_thirty_chars_accepted_thirty_one_rejected() {
    assert_eq!(ROOM_MAX_CHARS, 30);
    let r30 = "r".repeat(30);
    let r31 = "r".repeat(31);
    let m = Message::new(r30.clone(), "u".to_string(), "b".to_string()).unwrap();
    assert_eq!(m.room(), r30);
    let e = Message::new(r31, "u".to_string(), "b".to_string()).unwrap_err();
    assert_eq!(e, ValidationError::RoomTooLong);
}

#[test]
fn username_of_twenty_chars_accepted_twenty_one_rejected() {
    assert_eq!(USERNAME_MAX_CHARS, 20);
    let u20 = "u".repeat(20);
    let u21 = "u".repeat(21);
    let m = Message::new("lobby".to_string(), u20.clone(), "b".to_string()).unwrap();
    assert_eq!(m.username(), u20);
    let e = Message::new("lobby".to_string(), u21, "b".to_string()).unwrap_err();
    assert_eq!(e, ValidationError::UsernameTooLong);
}

#[test]
fn bounds_count_characters_not_bytes() {
    // Thirty two-byte characters: sixty bytes, thirty characters.
    let room = "é".repeat(30);
    assert!(Message::new(room, "ü".repeat(20), String::new()).is_ok());
    assert_eq!(
        Message::new("é".repeat(31), "u".to_string(), String::new()).unwrap_err(),
        ValidationError::RoomTooLong
    );
}

#[test]
fn room_is_checked_before_username() {
    let e = Message::new("r".repeat(31), "u".repeat(21), String::new()).unwrap_err();
    assert_eq!(e, ValidationError::RoomTooLong);
}

#[test]
fn body_is_unbounded() {
    let body = "x".repeat(100_000);
    let m = Message::new(String::new(), String::new(), body.clone()).unwrap();
    assert_eq!(m.body(), body);
    assert_eq!(m.room(), "");
}

#[test]
fn lobby_alice_hi_is_received_verbatim() {
    let mut hub = rocket();
    let mut sub = hub.subscribe();
    assert_eq!(hub.publish(msg("lobby", "alice", "hi")), Ok(1));
    match sub.try_recv(&hub) {
        Recv::Message(m) => {
            assert_eq!(m.room(), "lobby");
            assert_eq!(m.username(), "alice");
            assert_eq!(m.body(), "hi");
        }
        other => panic!("expected a message, got {:?}", other),
    }
    assert!(matches!(sub.try_recv(&hub), Recv::Empty));
}

#[test]
fn lobby_alice_hi_through_post_and_stream() {
    let mut hub = rocket();
    let shutdown = Shutdown::new();
    let mut stream = SubscriberStream::open(&mut hub);
    assert_eq!(
        post(&mut hub, "lobby".to_string(), "alice".to_string(), "hi".to_string()),
        Ok(())
    );
    let m = expect_emit(stream.poll(&hub, &shutdown));
    assert_eq!((m.room(), m.username(), m.body()), ("lobby", "alice", "hi"));
    assert!(matches!(stream.poll(&hub, &shutdown), StreamEvent::Idle));
}

#[test]
fn subscriber_receives_all_publishes_in_order() {
    let mut hub = Hub::new(8);
    let mut sub = hub.subscribe();
    for i in 0..8 {
        hub.publish(numbered(i)).unwrap();
    }
    for i in 0..8 {
        expect_body(sub.try_recv(&hub), &format!("m{}", i));
    }
    assert!(matches!(sub.try_recv(&hub), Recv::Empty));
}

#[test]
fn interleaved_reads_keep_order() {
    let mut hub = Hub::new(2);
    let mut sub = hub.subscribe();
    for i in 0..10 {
        hub.publish(numbered(i)).unwrap();
        expect_body(sub.try_recv(&hub), &format!("m{}", i));
    }
    assert_eq!(sub.cursor(), 10);
}

#[test]
fn late_subscriber_gets_no_history() {
    let mut hub = Hub::new(8);
    let mut early = hub.subscribe();
    hub.publish(numbered(0)).unwrap();
    hub.publish(numbered(1)).unwrap();
    let mut late = hub.subscribe();
    assert_eq!(late.cursor(), 2);
    assert!(matches!(late.try_recv(&hub), Recv::Empty));
    hub.publish(numbered(2)).unwrap();
    expect_body(late.try_recv(&hub), "m2");
    assert!(matches!(late.try_recv(&hub), Recv::Empty));
    expect_body(early.try_recv(&hub), "m0");
}

#[test]
fn paused_subscriber_lags_then_gets_oldest_held() {
    let mut hub = Hub::new(DEFAULT_CAPACITY);
    let mut sub = hub.subscribe();
    for i in 0..DEFAULT_CAPACITY + 5 {
        hub.publish(numbered(i)).unwrap();
    }
    match sub.try_recv(&hub) {
        Recv::Lagged(n) => assert_eq!(n, 5),
        other => panic!("expected a lag, got {:?}", other),
    }
    assert_eq!(sub.cursor(), 5);
    expect_body(sub.try_recv(&hub), "m5");
    expect_body(sub.try_recv(&hub), "m6");
}

#[test]
fn publish_with_no_subscribers_changes_nothing() {
    let mut hub = Hub::new(4);
    assert_eq!(hub.publish(numbered(0)), Ok(0));
    assert_eq!(hub.next_seq(), 0);
    assert_eq!(hub.oldest_seq(), 0);
    let mut sub = hub.subscribe();
    assert!(matches!(sub.try_recv(&hub), Recv::Empty));
}

#[test]
fn publish_reports_subscriber_count() {
    let mut hub = Hub::new(4);
    let a = hub.subscribe();
    let _b = hub.subscribe();
    assert_eq!(hub.subscriber_count(), 2);
    assert_eq!(hub.publish(numbered(0)), Ok(2));
    hub.unsubscribe(a);
    assert_eq!(hub.subscriber_count(), 1);
    assert_eq!(hub.publish(numbered(1)), Ok(1));
    assert_eq!(hub.next_seq(), 2);
}

#[test]
fn ring_overwrites_oldest() {
    let mut hub = Hub::new(3);
    let _sub = hub.subscribe();
    for i in 0..7 {
        hub.publish(numbered(i)).unwrap();
    }
    assert_eq!(hub.capacity(), 3);
    assert_eq!(hub.next_seq(), 7);
    assert_eq!(hub.oldest_seq(), 4);
    let mut late = hub.subscribe();
    hub.publish(numbered(7)).unwrap();
    expect_body(late.try_recv(&hub), "m7");
}

#[test]
fn closed_hub_refuses_publish_and_drains_then_closes() {
    let mut hub = Hub::new(4);
    let mut sub = hub.subscribe();
    hub.publish(numbered(0)).unwrap();
    hub.close();
    assert!(hub.is_closed());
    assert_eq!(hub.publish(numbered(1)), Err(PublishError::HubClosed));
    expect_body(sub.try_recv(&hub), "m0");
    assert!(matches!(sub.try_recv(&hub), Recv::Closed));
    assert!(matches!(sub.try_recv(&hub), Recv::Closed));
}

#[test]
fn post_rejects_long_fields_without_publishing() {
    let mut hub = rocket();
    let mut sub = hub.subscribe();
    assert_eq!(
        post(&mut hub, "r".repeat(31), "u".to_string(), "b".to_string()),
        Err(ValidationError::RoomTooLong)
    );
    assert_eq!(
        post(&mut hub, "r".to_string(), "u".repeat(21), "b".to_string()),
        Err(ValidationError::UsernameTooLong)
    );
    assert_eq!(hub.next_seq(), 0);
    assert!(matches!(sub.try_recv(&hub), Recv::Empty));
}

#[test]
fn post_succeeds_without_listeners_and_on_closed_hub() {
    let mut hub = rocket();
    assert_eq!(hub.capacity(), 1024);
    assert_eq!(post(&mut hub, "a".to_string(), "b".to_string(), "c".to_string()), Ok(()));
    hub.close();
    assert_eq!(post(&mut hub, "a".to_string(), "b".to_string(), "c".to_string()), Ok(()));
    assert_eq!(hub.next_seq(), 0);
}

#[test]
fn fast_and_stalled_subscribers() {
    let mut hub = Hub::new(4);
    let shutdown = Shutdown::new();
    let mut fast = SubscriberStream::open(&mut hub);
    let mut slow = SubscriberStream::open(&mut hub);
    for i in 0..10 {
        hub.publish(numbered(i)).unwrap();
        let m = expect_emit(fast.poll(&hub, &shutdown));
        assert_eq!(m.body(), format!("m{}", i));
    }
    // The stalled stream skips the lag silently and resumes at the oldest held.
    for i in 6..10 {
        let m = expect_emit(slow.poll(&hub, &shutdown));
        assert_eq!(m.body(), format!("m{}", i));
    }
    assert!(matches!(slow.poll(&hub, &shutdown), StreamEvent::Idle));
    assert!(matches!(fast.poll(&hub, &shutdown), StreamEvent::Idle));
}

#[test]
fn shutdown_ends_every_waiting_stream() {
    let mut hub = Hub::new(4);
    let mut shutdown = Shutdown::new();
    let mut streams: Vec<SubscriberStream> = (0..5).map(|_| SubscriberStream::open(&mut hub)).collect();
    for s in streams.iter_mut() {
        assert!(matches!(s.poll(&hub, &shutdown), StreamEvent::Idle));
    }
    shutdown.fire();
    shutdown.fire();
    assert!(shutdown.is_fired());
    for s in streams.iter_mut() {
        assert!(matches!(s.poll(&hub, &shutdown), StreamEvent::Ended));
        assert!(s.is_terminated());
    }
    for s in streams.drain(..) {
        s.finish(&mut hub);
    }
    assert_eq!(hub.subscriber_count(), 0);
}

#[test]
fn shutdown_wins_over_ready_message() {
    let mut hub = Hub::new(4);
    let mut shutdown = Shutdown::new();
    let mut stream = SubscriberStream::open(&mut hub);
    hub.publish(numbered(0)).unwrap();
    shutdown.fire();
    assert!(matches!(stream.poll(&hub, &shutdown), StreamEvent::Ended));
    hub.publish(numbered(1)).unwrap();
    let quiet = Shutdown::new();
    assert!(matches!(stream.poll(&hub, &quiet), StreamEvent::Ended));
}

#[test]
fn closed_hub_ends_stream_after_draining() {
    let mut hub = Hub::new(4);
    let shutdown = Shutdown::new();
    let mut stream = SubscriberStream::open(&mut hub);
    hub.publish(numbered(0)).unwrap();
    hub.close();
    assert_eq!(expect_emit(stream.poll(&hub, &shutdown)).body(), "m0");
    assert!(matches!(stream.poll(&hub, &shutdown), StreamEvent::Ended));
    assert!(stream.is_terminated());
}

#[test]
fn cloned_message_keeps_fields() {
    let m = msg("lobby", "alice", "hi");
    let c = m.clone();
    assert_eq!((c.room(), c.username(), c.body()), ("lobby", "alice", "hi"));
}
