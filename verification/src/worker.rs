//! The background worker: the mapping from a reply to display records, the
//! routing of a fetch's outcome onto the article channel, and the state
//! machine that decides when a fetch is due.

use crate::channel::{ArticleChannel, ControlChannel, TryRecvError};
use crate::headlines::{card_views, Msg, MsgView, NewsCardData, NewsCardView};
use crate::newsapi::{
    default_request, Article, ArticleView, NewsAPI, NewsAPIError, NewsAPIResponse, NewsAPIView,
};
use vstd::prelude::*;
use vstd::string::StringExecFns;

verus! {

/// What is shown in place of a description that an article does not have.
pub const PLACEHOLDER: &'static str = "...";

/// The display record of an article: title and link as they are, the
/// description or, where there is none, the placeholder.
pub open spec fn display_record(article: ArticleView) -> NewsCardView {
    NewsCardView {
        title: article.title,
        description: match article.description {
            Some(description) => description,
            None => PLACEHOLDER@,
        },
        link: article.link,
    }
}

/// The display records of a reply's articles, one for each, in order.
pub open spec fn display_records(articles: Seq<ArticleView>) -> Seq<NewsCardView> {
    Seq::new(articles.len(), |i: int| display_record(articles[i]))
}

/// Turns one article into its display record.
pub fn to_display_record(article: &Article) -> (card: NewsCardData)
    ensures
        card@ == display_record(article@),
{
    let description = match article.get_description() {
        Some(description) => description.clone(),
        None => String::from_str(PLACEHOLDER),
    };
    NewsCardData {
        title: String::from_str(article.get_title()),
        description,
        link: String::from_str(article.get_link()),
    }
}

/// Turns a reply into display records: one for each article, in the reply's
/// order.
pub fn to_display_records(response: &NewsAPIResponse) -> (cards: Vec<NewsCardData>)
    ensures
        card_views(cards@) == display_records(response@.results),
{
    let articles = response.articles();
    let mut cards: Vec<NewsCardData> = Vec::new();
    let mut i: usize = 0;
    while i < articles.len()
        invariant
            i <= articles.len(),
            cards.len() == i,
            forall|j: int| 0 <= j < i ==> (#[trigger] cards[j])@ == display_record(articles[j]@),
        decreases articles.len() - i,
    {
        cards.push(to_display_record(&articles[i]));
        i += 1;
    }
    assert(card_views(cards@) =~= display_records(response@.results));
    cards
}

/// Routes the outcome of a fetch. The display records of a reply are sent
/// onto the article channel, one send for each, in the reply's order, and
/// the number that the channel took is returned. A failed fetch sends
/// nothing: its error is handed back for the caller to report.
pub fn fetch_news(outcome: Result<NewsAPIResponse, NewsAPIError>, news_tx: &mut ArticleChannel) -> (
    routed: Result<usize, NewsAPIError>)
    ensures
        outcome matches Ok(response) ==> {
            &&& final(news_tx)@ == old(news_tx)@.after_sends(display_records(response@.results))
            &&& routed is Ok
            &&& routed->Ok_0 == if old(news_tx)@.connected {
                response@.results.len()
            } else {
                0
            }
        },
        outcome matches Err(error) ==> {
            &&& final(news_tx)@ == old(news_tx)@
            &&& routed is Err
            &&& routed->Err_0 == error
        },
{
    match outcome {
        Ok(response) => {
            let articles = response.articles();
            let ghost records = display_records(response@.results);
            let mut taken: usize = 0;
            let mut i: usize = 0;
            while i < articles.len()
                invariant
                    i <= articles.len(),
                    records == display_records(response@.results),
                    records.len() == articles.len(),
                    forall|j: int|
                        0 <= j < articles.len() ==> records[j] == display_record(
                            (#[trigger] articles[j])@,
                        ),
                    news_tx@.connected == old(news_tx)@.connected,
                    news_tx@.connected ==> taken == i && news_tx@.queue == old(news_tx)@.queue
                        + records.subrange(0, i as int),
                    !news_tx@.connected ==> taken == 0 && news_tx@ == old(news_tx)@,
                decreases articles.len() - i,
            {
                let sent = news_tx.send(to_display_record(&articles[i]));
                if sent.is_ok() {
                    assert(records.subrange(0, i as int) + seq![records[i as int]]
                        =~= records.subrange(0, i + 1));
                    assert(news_tx@.queue =~= old(news_tx)@.queue + records.subrange(0, i + 1));
                    taken += 1;
                }
                i += 1;
            }
            assert(records.subrange(0, i as int) =~= records);
            Ok(taken)
        },
        Err(error) => Err(error),
    }
}

/// The two states of the worker: it waits for a key, or a fetch under a
/// key is due or under way.
pub enum WorkerStateView {
    AwaitingKey,
    Fetching(Seq<char>),
}

impl WorkerStateView {
    /// The state in which a worker starts: a key that is not empty is
    /// fetched with at once.
    pub open spec fn initial(api_key: Seq<char>) -> WorkerStateView {
        if api_key.len() > 0 {
            WorkerStateView::Fetching(api_key)
        } else {
            WorkerStateView::AwaitingKey
        }
    }

    /// The request that the worker wants executed, if it wants one.
    pub open spec fn wanted(self) -> Option<NewsAPIView> {
        match self {
            WorkerStateView::AwaitingKey => None,
            WorkerStateView::Fetching(key) => Some(default_request(key)),
        }
    }

    /// The state after a control event: a waiting worker turns to fetching
    /// with the key of the event, a fetching one is not interrupted.
    pub open spec fn after_control(self, event: MsgView) -> WorkerStateView {
        match self {
            WorkerStateView::AwaitingKey => match event {
                MsgView::ApiKeySet(key) => WorkerStateView::Fetching(key),
            },
            WorkerStateView::Fetching(_) => self,
        }
    }
}

/// A worker that starts without a key asks for no fetch. The event that
/// sets a key makes it ask for one, under exactly that key.
pub proof fn lemma_no_fetch_before_key(key: Seq<char>)
    ensures
        WorkerStateView::initial(Seq::empty()).wanted() is None,
        WorkerStateView::initial(Seq::empty()).after_control(MsgView::ApiKeySet(key)).wanted()
            == Some(default_request(key)),
{
}

/// What the worker needs done next by whoever runs it.
#[derive(Debug, Clone, PartialEq, Eq)]
pub enum WorkerAction {
    /// Wait for a control event and hand it to `on_control`.
    AwaitControl,
    /// Execute this request and hand the outcome to `on_fetched`.
    Fetch(NewsAPI),
}

/// The worker's state machine. It never performs a fetch or waits itself: it
/// says what is due and is told what happened.
#[derive(Debug)]
pub struct Worker {
    /// The key to fetch with, while a fetch is due.
    fetching: Option<String>,
}

impl View for Worker {
    type V = WorkerStateView;

    closed spec fn view(&self) -> WorkerStateView {
        match self.fetching {
            Some(key) => WorkerStateView::Fetching(key@),
            None => WorkerStateView::AwaitingKey,
        }
    }
}

impl Worker {
    /// A worker that starts with the key of the settings.
    pub fn start(api_key: &str) -> (worker: Worker)
        ensures
            worker@ == WorkerStateView::initial(api_key@),
    {
        if !api_key.is_empty() {
            Worker { fetching: Some(String::from_str(api_key)) }
        } else {
            Worker { fetching: None }
        }
    }

    /// Whether the worker waits for a key.
    pub fn is_awaiting_key(&self) -> (awaiting: bool)
        ensures
            awaiting == (self@ is AwaitingKey),
    {
        self.fetching.is_none()
    }

    /// What is due: a waiting worker needs a control event, a fetching one
    /// needs its request executed, with the default selectors under its key.
    pub fn action(&self) -> (action: WorkerAction)
        ensures
            self@.wanted() is None ==> action is AwaitControl,
            self@.wanted() is Some ==> action is Fetch && action->Fetch_0@ == self@.wanted()->Some_0,
    {
        match &self.fetching {
            Some(key) => WorkerAction::Fetch(NewsAPI::new(key.as_str())),
            None => WorkerAction::AwaitControl,
        }
    }

    /// Takes a control event.
    pub fn on_control(&mut self, event: Msg)
        ensures
            final(self)@ == old(self)@.after_control(event@),
    {
        if self.fetching.is_none() {
            match event {
                Msg::ApiKeySet(key) => {
                    self.fetching = Some(key);
                },
            }
        }
    }

    /// Looks for a control event without waiting. A waiting worker takes the
    /// event that waits in the channel, if there is one, as `on_control`
    /// does; if there is none, nothing changes and the caller is told
    /// whether the channel is empty or disconnected. A fetching worker has
    /// work due and leaves the channel alone.
    pub fn poll_control(&mut self, control_rx: &mut ControlChannel) -> (polled: Result<
        (),
        TryRecvError,
    >)
        ensures
            old(self)@ is Fetching ==> {
                &&& final(self)@ == old(self)@
                &&& final(control_rx)@ == old(control_rx)@
                &&& polled is Ok
            },
            old(self)@ is AwaitingKey && old(control_rx)@.pending.len() > 0 ==> {
                &&& final(self)@ == old(self)@.after_control(old(control_rx)@.pending[0])
                &&& final(control_rx)@ == old(control_rx)@.after_recv()
                &&& polled is Ok
            },
            old(self)@ is AwaitingKey && old(control_rx)@.pending.len() == 0 ==> {
                &&& final(self)@ == old(self)@
                &&& final(control_rx)@ == old(control_rx)@
                &&& polled is Err
                &&& polled->Err_0 == old(control_rx)@.nothing_waits()
            },
    {
        if self.is_awaiting_key() {
            match control_rx.try_recv() {
                Ok(event) => {
                    self.on_control(event);
                    Ok(())
                },
                Err(e) => Err(e),
            }
        } else {
            Ok(())
        }
    }

    /// Takes the outcome of the fetch that was due, routes it as `fetch_news`
    /// does, and goes back to waiting, whether the fetch failed or not. A
    /// worker that waits has asked for no fetch: an outcome handed to it is
    /// dropped and nothing changes.
    pub fn on_fetched(
        &mut self,
        outcome: Result<NewsAPIResponse, NewsAPIError>,
        news_tx: &mut ArticleChannel,
    ) -> (routed: Result<usize, NewsAPIError>)
        ensures
            final(self)@ is AwaitingKey,
            old(self)@ is AwaitingKey ==> {
                &&& final(news_tx)@ == old(news_tx)@
                &&& routed is Ok
                &&& routed->Ok_0 == 0
            },
            old(self)@ is Fetching ==> match outcome {
                Ok(response) => {
                    &&& final(news_tx)@ == old(news_tx)@.after_sends(
                        display_records(response@.results),
                    )
                    &&& routed is Ok
                    &&& routed->Ok_0 == if old(news_tx)@.connected {
                        response@.results.len()
                    } else {
                        0
                    }
                },
                Err(error) => {
                    &&& final(news_tx)@ == old(news_tx)@
                    &&& routed is Err
                    &&& routed->Err_0 == error
                },
            },
    {
        if self.is_awaiting_key() {
            Ok(0)
        } else {
            self.fetching = None;
            fetch_news(outcome, news_tx)
        }
    }
}

} // verus!
