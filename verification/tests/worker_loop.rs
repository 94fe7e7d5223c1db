use headlines::channel::{ArticleChannel, ControlChannel, TryRecvError};
use headlines::headlines::{Msg, NewsCardData};
use headlines::newsapi::{Article, NewsAPI, NewsAPIError, NewsAPIResponse};
use headlines::worker::{
    fetch_news, to_display_record, to_display_records, Worker, WorkerAction, PLACEHOLDER,
};

fn article(n: usize, described: bool) -> Article {
    Article::new(
        format!("title {}", n),
        format!("https://example.com/{}", n),
        if described { Some(format!("about {}", n)) } else { None },
    )
}

fn success(results: Vec<Article>) -> NewsAPIResponse {
    NewsAPIResponse::new("success".to_string(), results, None)
}

fn expected_card(n: usize, described: bool) -> NewsCardData {
    NewsCardData {
        title: format!("title {}", n),
        description: if described { format!("about {}", n) } else { "...".to_string() },
        link: format!("https://example.com/{}", n),
    }
}

fn drain(channel: &mut ArticleChannel) -> Vec<NewsCardData> {
    let mut cards = Vec::new();
    while let Ok(card) = channel.try_recv() {
        cards.push(card);
    }
    cards
}

#[test]
fn placeholder_is_three_dots() {
    assert_eq!(PLACEHOLDER, "...");
}

#[test]
fn display_record_copies_title_link_and_description() {
    let card = to_display_record(&article(1, true));
    assert_eq!(card, expected_card(1, true));
}

#[test]
fn display_record_substitutes_a_missing_description() {
    let card = to_display_record(&article(2, false));
    assert_eq!(card.title, "title 2");
    assert_eq!(card.link, "https://example.com/2");
    assert_eq!(card.description, "...");
}

#[test]
fn display_record_keeps_an_empty_description() {
    let card = to_display_record(&Article::new("t".to_string(), "l".to_string(), Some(String::new())));
    assert_eq!(card.description, "");
}

#[test]
fn display_records_are_one_per_article_in_order() {
    let response = success(vec![article(0, true), article(1, false), article(2, true), article(3, false)]);
    let cards = to_display_records(&response);
    assert_eq!(
        cards,
        vec![
            expected_card(0, true),
            expected_card(1, false),
            expected_card(2, true),
            expected_card(3, false)
        ]
    );
}

#[test]
fn display_records_of_an_empty_reply_are_empty() {
    assert_eq!(to_display_records(&success(vec![])), Vec::<NewsCardData>::new());
}

#[test]
fn fetch_news_sends_each_record_in_order() {
    let mut channel = ArticleChannel::new();
    channel.send(expected_card(99, true)).unwrap();
    let routed = fetch_news(Ok(success(vec![article(0, false), article(1, true)])), &mut channel);
    assert!(matches!(routed, Ok(2)));
    assert_eq!(
        drain(&mut channel),
        vec![expected_card(99, true), expected_card(0, false), expected_card(1, true)]
    );
}

#[test]
fn fetch_news_sends_nothing_for_a_failed_fetch() {
    let mut channel = ArticleChannel::new();
    let routed = fetch_news(Err(NewsAPIError::RequestFailed("refused".to_string())), &mut channel);
    match routed {
        Err(NewsAPIError::RequestFailed(detail)) => assert_eq!(detail, "refused"),
        other => panic!("unexpected: {:?}", other),
    }
    assert_eq!(channel.len(), 0);
    assert_eq!(channel.try_recv(), Err(TryRecvError::Empty));
}

#[test]
fn fetch_news_on_a_disconnected_channel_delivers_nothing() {
    let mut channel = ArticleChannel::new();
    channel.disconnect();
    let routed = fetch_news(Ok(success(vec![article(0, false), article(1, true)])), &mut channel);
    assert!(matches!(routed, Ok(0)));
    assert_eq!(channel.len(), 0);
}

#[test]
fn worker_with_a_key_fetches_at_once() {
    let worker = Worker::start("abc");
    assert!(!worker.is_awaiting_key());
    assert_eq!(worker.action(), WorkerAction::Fetch(NewsAPI::new("abc")));
}

#[test]
fn worker_without_a_key_waits() {
    let worker = Worker::start("");
    assert!(worker.is_awaiting_key());
    assert_eq!(worker.action(), WorkerAction::AwaitControl);
}

#[test]
fn key_event_starts_a_fetch_with_that_key() {
    let mut worker = Worker::start("");
    worker.on_control(Msg::ApiKeySet("abc".to_string()));
    assert!(!worker.is_awaiting_key());
    match worker.action() {
        WorkerAction::Fetch(request) => {
            assert_eq!(request.api_key(), "abc");
            assert_eq!(request, NewsAPI::new("abc"));
        }
        other => panic!("unexpected: {:?}", other),
    }
}

#[test]
fn key_event_with_an_empty_key_still_starts_a_fetch() {
    let mut worker = Worker::start("");
    worker.on_control(Msg::ApiKeySet(String::new()));
    assert_eq!(worker.action(), WorkerAction::Fetch(NewsAPI::new("")));
}

#[test]
fn fetching_worker_is_not_interrupted_by_a_key_event() {
    let mut worker = Worker::start("first");
    worker.on_control(Msg::ApiKeySet("second".to_string()));
    assert_eq!(worker.action(), WorkerAction::Fetch(NewsAPI::new("first")));
}

#[test]
fn worker_waits_again_after_a_successful_fetch() {
    let mut worker = Worker::start("abc");
    let mut channel = ArticleChannel::new();
    let routed = worker.on_fetched(Ok(success(vec![article(0, true)])), &mut channel);
    assert!(matches!(routed, Ok(1)));
    assert!(worker.is_awaiting_key());
    assert_eq!(worker.action(), WorkerAction::AwaitControl);
    assert_eq!(drain(&mut channel), vec![expected_card(0, true)]);
}

#[test]
fn worker_waits_again_after_a_failed_fetch() {
    let mut worker = Worker::start("abc");
    let mut channel = ArticleChannel::new();
    let routed = worker.on_fetched(Err(NewsAPIError::BadRequest("Unknown error 2")), &mut channel);
    assert!(matches!(routed, Err(NewsAPIError::BadRequest("Unknown error 2"))));
    assert!(worker.is_awaiting_key());
    assert_eq!(channel.len(), 0);
    worker.on_control(Msg::ApiKeySet("next".to_string()));
    assert_eq!(worker.action(), WorkerAction::Fetch(NewsAPI::new("next")));
}

#[test]
fn waiting_worker_drops_an_outcome_it_did_not_ask_for() {
    let mut worker = Worker::start("");
    let mut channel = ArticleChannel::new();
    let routed = worker.on_fetched(Ok(success(vec![article(0, true)])), &mut channel);
    assert!(matches!(routed, Ok(0)));
    assert!(worker.is_awaiting_key());
    assert_eq!(channel.len(), 0);
}

#[test]
fn waiting_worker_takes_the_event_that_waits() {
    let mut worker = Worker::start("");
    let mut control = ControlChannel::new();
    assert_eq!(worker.poll_control(&mut control), Err(TryRecvError::Empty));
    assert!(worker.is_awaiting_key());
    control.try_send(Msg::ApiKeySet("abc".to_string())).unwrap();
    assert_eq!(worker.poll_control(&mut control), Ok(()));
    assert_eq!(control.len(), 0);
    assert_eq!(worker.action(), WorkerAction::Fetch(NewsAPI::new("abc")));
}

#[test]
fn fetching_worker_leaves_the_control_channel_alone() {
    let mut worker = Worker::start("first");
    let mut control = ControlChannel::new();
    control.try_send(Msg::ApiKeySet("second".to_string())).unwrap();
    assert_eq!(worker.poll_control(&mut control), Ok(()));
    assert_eq!(control.len(), 1);
    assert_eq!(worker.action(), WorkerAction::Fetch(NewsAPI::new("first")));
    let mut articles = ArticleChannel::new();
    let _ = worker.on_fetched(Ok(success(vec![])), &mut articles);
    assert_eq!(worker.poll_control(&mut control), Ok(()));
    assert_eq!(worker.action(), WorkerAction::Fetch(NewsAPI::new("second")));
}

#[test]
fn waiting_worker_is_told_of_a_disconnection() {
    let mut worker = Worker::start("");
    let mut control = ControlChannel::new();
    control.disconnect();
    assert_eq!(worker.poll_control(&mut control), Err(TryRecvError::Disconnected));
    assert!(worker.is_awaiting_key());
}
