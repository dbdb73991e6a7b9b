use chat::hub::{Delivery, Hub, HubClosed, CAPACITY};
use chat::message::{FormError, Message, ROOM_MAX, USERNAME_MAX};
use chat::session::{Action, Session, SessionState};
use chat::{post, rocket, PostError};

fn msg(room: &str, username: &str, message: &str) -> Message {
    Message::new(room.to_string(), username.to_string(), message.to_string())
}

fn emitted(a: Action) -> Message {
    match a {
        Action::Emit(m) => m,
        other => panic!("expected a message, got {:?}", other),
    }
}

#[test]
fn lobby_message_reaches_earlier_subscriber_only() {
    let mut hub = rocket();
    let mut a = Session::open(&mut hub);
    assert_eq!(post(msg("lobby", "al", "hi"), &mut hub), Ok(1));
    let mut b = Session::open(&mut hub);

    let m = emitted(a.step(&mut hub, false));
    assert_eq!(m.room, "lobby");
    assert_eq!(m.username, "al");
    assert_eq!(m.message, "hi");
    assert!(matches!(a.step(&mut hub, false), Action::Wait));

    assert!(matches!(b.step(&mut hub, false), Action::Wait));
    assert!(matches!(b.step(&mut hub, false), Action::Wait));
}

#[test]
fn username_of_twenty_one_is_rejected_before_the_hub() {
    let mut hub = rocket();
    let mut a = Session::open(&mut hub);
    let name = "u".repeat(21);
    let r = post(msg("lobby", &name, "hi"), &mut hub);
    assert_eq!(r, Err(PostError::Invalid(FormError::UsernameTooLong)));
    assert_eq!(hub.published(), 0);
    assert!(matches!(a.step(&mut hub, false), Action::Wait));
}

#[test]
fn length_limits_are_inclusive() {
    let mut hub = rocket();
    let room = "r".repeat(ROOM_MAX);
    let name = "u".repeat(USERNAME_MAX);
    assert_eq!(post(msg(&room, &name, ""), &mut hub), Ok(0));
    assert_eq!(hub.published(), 1);
}

#[test]
fn room_of_thirty_one_is_rejected() {
    let mut hub = rocket();
    let room = "r".repeat(31);
    let r = post(msg(&room, "al", "hi"), &mut hub);
    assert_eq!(r, Err(PostError::Invalid(FormError::RoomTooLong)));
    assert_eq!(hub.published(), 0);
}

#[test]
fn room_is_checked_before_username() {
    let m = msg(&"r".repeat(31), &"u".repeat(21), "");
    assert_eq!(m.validate(), Err(FormError::RoomTooLong));
}

#[test]
fn limits_count_characters_not_bytes() {
    let m = msg("lobby", &"é".repeat(20), "");
    assert_eq!(m.validate(), Ok(()));
    let m = msg("lobby", &"é".repeat(21), "");
    assert_eq!(m.validate(), Err(FormError::UsernameTooLong));
}

#[test]
fn long_body_is_accepted() {
    let m = msg("lobby", "al", &"x".repeat(10_000));
    assert_eq!(m.validate(), Ok(()));
}

#[test]
fn sessions_see_publication_order() {
    let mut hub = rocket();
    let mut a = Session::open(&mut hub);
    let mut b = Session::open(&mut hub);
    for body in ["one", "two", "three"] {
        assert_eq!(post(msg("lobby", "al", body), &mut hub), Ok(2));
    }
    for body in ["one", "two", "three"] {
        assert_eq!(emitted(a.step(&mut hub, false)).message, body);
    }
    for body in ["one", "two", "three"] {
        assert_eq!(emitted(b.step(&mut hub, false)).message, body);
    }
    assert!(matches!(a.step(&mut hub, false), Action::Wait));
    assert_eq!(a.state(), SessionState::Streaming);
}

#[test]
fn interleaved_reads_keep_order() {
    let mut hub = rocket();
    let mut a = Session::open(&mut hub);
    post(msg("lobby", "al", "one"), &mut hub).unwrap();
    assert_eq!(emitted(a.step(&mut hub, false)).message, "one");
    post(msg("lobby", "al", "two"), &mut hub).unwrap();
    post(msg("lobby", "al", "three"), &mut hub).unwrap();
    assert_eq!(emitted(a.step(&mut hub, false)).message, "two");
    assert_eq!(emitted(a.step(&mut hub, false)).message, "three");
}

#[test]
fn lagging_subscriber_does_not_disturb_others() {
    let mut hub = Hub::new(2);
    let mut slow = Session::open(&mut hub);
    let mut fast = Session::open(&mut hub);
    for body in ["1", "2", "3", "4", "5"] {
        post(msg("lobby", "al", body), &mut hub).unwrap();
        assert_eq!(emitted(fast.step(&mut hub, false)).message, body);
    }
    assert!(matches!(slow.step(&mut hub, false), Action::Skip));
    assert_eq!(slow.state(), SessionState::Streaming);
    assert_eq!(emitted(slow.step(&mut hub, false)).message, "4");
    assert_eq!(emitted(slow.step(&mut hub, false)).message, "5");
    assert!(matches!(slow.step(&mut hub, false), Action::Wait));
    assert!(matches!(fast.step(&mut hub, false), Action::Wait));
}

#[test]
fn lag_reports_how_many_were_lost() {
    let mut hub = Hub::new(3);
    let sub = hub.subscribe();
    for body in ["1", "2", "3", "4", "5", "6", "7"] {
        hub.publish(msg("lobby", "al", body)).unwrap();
    }
    assert!(matches!(hub.recv(&sub), Delivery::Lagged(4)));
    match hub.recv(&sub) {
        Delivery::Message(m) => assert_eq!(m.message, "5"),
        other => panic!("expected a message, got {:?}", other),
    }
    hub.unsubscribe(sub);
    assert_eq!(hub.subscriber_count(), 0);
}

#[test]
fn ring_keeps_exactly_capacity_messages() {
    let mut hub = Hub::new(3);
    let sub = hub.subscribe();
    for body in ["1", "2", "3"] {
        hub.publish(msg("lobby", "al", body)).unwrap();
    }
    match hub.recv(&sub) {
        Delivery::Message(m) => assert_eq!(m.message, "1"),
        other => panic!("expected a message, got {:?}", other),
    }
}

#[test]
fn late_subscriber_gets_no_replay() {
    let mut hub = rocket();
    post(msg("lobby", "al", "before"), &mut hub).unwrap();
    let mut late = Session::open(&mut hub);
    assert!(matches!(late.step(&mut hub, false), Action::Wait));
    post(msg("lobby", "al", "after"), &mut hub).unwrap();
    assert_eq!(emitted(late.step(&mut hub, false)).message, "after");
    assert!(matches!(late.step(&mut hub, false), Action::Wait));
}

#[test]
fn shutdown_preempts_pending_messages() {
    let mut hub = rocket();
    let mut a = Session::open(&mut hub);
    post(msg("lobby", "al", "pending"), &mut hub).unwrap();
    assert_eq!(hub.subscriber_count(), 1);
    assert!(matches!(a.step(&mut hub, true), Action::End));
    assert_eq!(a.state(), SessionState::Closed);
    assert_eq!(hub.subscriber_count(), 0);
    assert!(matches!(a.step(&mut hub, false), Action::End));
    assert!(matches!(a.step(&mut hub, true), Action::End));
    assert_eq!(post(msg("lobby", "al", "later"), &mut hub), Ok(0));
}

#[test]
fn publish_without_subscribers_is_success() {
    let mut hub = rocket();
    assert_eq!(post(msg("lobby", "al", "nobody"), &mut hub), Ok(0));
    assert_eq!(hub.published(), 1);
    let mut a = Session::open(&mut hub);
    assert!(matches!(a.step(&mut hub, false), Action::Wait));
}

#[test]
fn publish_reports_subscriber_count() {
    let mut hub = Hub::new(4);
    let s1 = hub.subscribe();
    let _s2 = hub.subscribe();
    assert_eq!(hub.publish(msg("a", "b", "c")), Ok(2));
    hub.unsubscribe(s1);
    assert_eq!(hub.publish(msg("a", "b", "c")), Ok(1));
}

#[test]
fn closed_hub_drains_then_ends_sessions() {
    let mut hub = rocket();
    let mut a = Session::open(&mut hub);
    post(msg("lobby", "al", "last"), &mut hub).unwrap();
    hub.close();
    assert!(hub.is_closed());
    assert_eq!(post(msg("lobby", "al", "late"), &mut hub), Err(PostError::Closed));
    assert_eq!(hub.publish(msg("lobby", "al", "late")), Err(HubClosed));
    assert_eq!(emitted(a.step(&mut hub, false)).message, "last");
    assert!(matches!(a.step(&mut hub, false), Action::End));
    assert_eq!(a.state(), SessionState::Closed);
    assert_eq!(hub.subscriber_count(), 0);
}

#[test]
fn new_session_starts_open() {
    let mut hub = rocket();
    let a = Session::open(&mut hub);
    assert_eq!(a.state(), SessionState::Open);
    assert_eq!(hub.subscriber_count(), 1);
    assert_eq!(hub.next_id(), 1);
}

#[test]
fn relay_hub_has_capacity_1024() {
    let hub = rocket();
    assert_eq!(CAPACITY, 1024);
    assert_eq!(hub.capacity(), 1024);
    assert_eq!(hub.published(), 0);
    assert_eq!(hub.subscriber_count(), 0);
    assert!(!hub.is_closed());
}

#[test]
fn duplicate_copies_every_field() {
    let m = msg("lobby", "al", "hi");
    let d = m.duplicate();
    assert_eq!(d.room, "lobby");
    assert_eq!(d.username, "al");
    assert_eq!(d.message, "hi");
}
