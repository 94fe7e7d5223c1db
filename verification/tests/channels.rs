use headlines::channel::{
    ArticleChannel, ControlChannel, SendError, TryRecvError, TrySendError, CONTROL_CAPACITY,
};
use headlines::headlines::{Msg, NewsCardData};

fn card(n: usize) -> NewsCardData {
    NewsCardData {
        title: format!("title {}", n),
        description: format!("description {}", n),
        link: format!("https://example.com/{}", n),
    }
}

fn key_set(key: &str) -> Msg {
    Msg::ApiKeySet(key.to_string())
}

#[test]
fn article_channel_starts_empty_and_connected() {
    let channel = ArticleChannel::new();
    assert_eq!(channel.len(), 0);
    assert!(channel.is_connected());
}

#[test]
fn article_channel_keeps_send_order() {
    let mut channel = ArticleChannel::new();
    for n in 0..25 {
        assert_eq!(channel.send(card(n)), Ok(()));
    }
    assert_eq!(channel.len(), 25);
    for n in 0..25 {
        assert_eq!(channel.try_recv(), Ok(card(n)));
    }
    assert_eq!(channel.len(), 0);
}

#[test]
fn receiving_from_an_empty_article_channel_is_no_failure() {
    let mut channel = ArticleChannel::new();
    assert_eq!(channel.try_recv(), Err(TryRecvError::Empty));
    assert_eq!(channel.try_recv(), Err(TryRecvError::Empty));
    assert_eq!(channel.len(), 0);
    assert!(channel.is_connected());
    assert_eq!(channel.send(card(1)), Ok(()));
    assert_eq!(channel.try_recv(), Ok(card(1)));
    assert_eq!(channel.try_recv(), Err(TryRecvError::Empty));
}

#[test]
fn disconnected_article_channel_hands_the_record_back() {
    let mut channel = ArticleChannel::new();
    channel.disconnect();
    assert!(!channel.is_connected());
    assert_eq!(channel.send(card(7)), Err(SendError(card(7))));
    assert_eq!(channel.len(), 0);
}

#[test]
fn what_was_sent_before_a_disconnection_is_still_received() {
    let mut channel = ArticleChannel::new();
    channel.send(card(1)).unwrap();
    channel.send(card(2)).unwrap();
    channel.disconnect();
    assert_eq!(channel.len(), 2);
    assert_eq!(channel.try_recv(), Ok(card(1)));
    assert_eq!(channel.try_recv(), Ok(card(2)));
    assert_eq!(channel.try_recv(), Err(TryRecvError::Disconnected));
}

#[test]
fn control_channel_holds_one_event() {
    assert_eq!(CONTROL_CAPACITY, 1);
    let mut channel = ControlChannel::new();
    assert_eq!(channel.len(), 0);
    assert_eq!(channel.try_send(key_set("first")), Ok(()));
    assert_eq!(channel.len(), 1);
}

#[test]
fn second_control_event_waits_until_the_first_is_received() {
    let mut channel = ControlChannel::new();
    assert_eq!(channel.try_send(key_set("first")), Ok(()));
    assert_eq!(channel.try_send(key_set("second")), Err(TrySendError::Full(key_set("second"))));
    assert_eq!(channel.try_send(key_set("second")), Err(TrySendError::Full(key_set("second"))));
    assert_eq!(channel.len(), 1);
    assert_eq!(channel.try_recv(), Ok(key_set("first")));
    assert_eq!(channel.len(), 0);
    assert_eq!(channel.try_send(key_set("second")), Ok(()));
    assert_eq!(channel.len(), 1);
    assert_eq!(channel.try_recv(), Ok(key_set("second")));
    assert_eq!(channel.try_recv(), Err(TryRecvError::Empty));
}

#[test]
fn control_channel_never_queues_two_events() {
    let mut channel = ControlChannel::new();
    for n in 0..20 {
        let _ = channel.try_send(key_set(&format!("k{}", n)));
        assert!(channel.len() <= CONTROL_CAPACITY);
        if n % 3 == 0 {
            let _ = channel.try_recv();
        }
        assert!(channel.len() <= CONTROL_CAPACITY);
    }
}

#[test]
fn receiving_from_an_empty_control_channel_is_no_failure() {
    let mut channel = ControlChannel::new();
    assert_eq!(channel.try_recv(), Err(TryRecvError::Empty));
    assert_eq!(channel.len(), 0);
    assert!(channel.is_connected());
}

#[test]
fn disconnected_control_channel_refuses_events() {
    let mut channel = ControlChannel::new();
    channel.disconnect();
    assert!(!channel.is_connected());
    assert_eq!(channel.try_send(key_set("k")), Err(TrySendError::Disconnected(key_set("k"))));
    assert_eq!(channel.len(), 0);
    assert_eq!(channel.try_recv(), Err(TryRecvError::Disconnected));
}

#[test]
fn disconnection_is_reported_before_fullness() {
    let mut channel = ControlChannel::new();
    channel.try_send(key_set("held")).unwrap();
    channel.disconnect();
    assert_eq!(channel.try_send(key_set("k")), Err(TrySendError::Disconnected(key_set("k"))));
    assert_eq!(channel.try_recv(), Ok(key_set("held")));
    assert_eq!(channel.try_recv(), Err(TryRecvError::Disconnected));
}
