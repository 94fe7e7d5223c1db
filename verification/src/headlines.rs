//! The presentation state: the settings, the visible articles, and what a
//! tick of the presentation loop decides.

use crate::channel::{ArticleChannel, ArticleChannelView, TryRecvError};
use crate::newsapi::{default_request, NewsAPI};
use vstd::math::min;
use vstd::prelude::*;

verus! {

/// The most articles that are ever visible.
pub const MAX_ARTICLES: usize = 10;

/// The settings that outlive a run.
#[derive(Debug, Clone, PartialEq, Eq)]
pub struct HeadlinesConfig {
    pub dark_mode: bool,
    pub api_key: String,
    pub refresh_news_data: bool,
}

/// The mathematical value of a `HeadlinesConfig`.
pub struct HeadlinesConfigView {
    pub dark_mode: bool,
    pub api_key: Seq<char>,
    pub refresh_news_data: bool,
}

impl View for HeadlinesConfig {
    type V = HeadlinesConfigView;

    open spec fn view(&self) -> HeadlinesConfigView {
        HeadlinesConfigView {
            dark_mode: self.dark_mode,
            api_key: self.api_key@,
            refresh_news_data: self.refresh_news_data,
        }
    }
}

impl Default for HeadlinesConfig {
    fn default() -> (config: HeadlinesConfig)
        ensures
            config@ == (HeadlinesConfigView {
                dark_mode: false,
                api_key: Seq::<char>::empty(),
                refresh_news_data: false,
            }),
    {
        HeadlinesConfig { dark_mode: false, api_key: String::new(), refresh_news_data: false }
    }
}

/// One article as it is shown: nothing in it is absent.
#[derive(Debug, Clone, PartialEq, Eq)]
pub struct NewsCardData {
    pub title: String,
    pub description: String,
    pub link: String,
}

/// The mathematical value of a `NewsCardData`.
pub struct NewsCardView {
    pub title: Seq<char>,
    pub description: Seq<char>,
    pub link: Seq<char>,
}

impl View for NewsCardData {
    type V = NewsCardView;

    open spec fn view(&self) -> NewsCardView {
        NewsCardView { title: self.title@, description: self.description@, link: self.link@ }
    }
}

/// The views of a sequence of cards, in order.
pub open spec fn card_views(cards: Seq<NewsCardData>) -> Seq<NewsCardView> {
    Seq::new(cards.len(), |i: int| cards[i]@)
}

/// What the presentation loop tells the worker.
#[derive(Debug, Clone, PartialEq, Eq)]
pub enum Msg {
    ApiKeySet(String),
}

/// The mathematical value of a `Msg`.
pub enum MsgView {
    ApiKeySet(Seq<char>),
}

impl View for Msg {
    type V = MsgView;

    open spec fn view(&self) -> MsgView {
        match *self {
            Msg::ApiKeySet(key) => MsgView::ApiKeySet(key@),
        }
    }
}

/// The state of the presentation loop.
#[derive(Debug)]
pub struct Headlines {
    /// The visible articles, in the order in which they arrived.
    pub articles: Vec<NewsCardData>,
    pub config: HeadlinesConfig,
    /// Whether a key has been set, in the settings or by the user.
    pub api_key_initialized: bool,
}

/// The mathematical value of a `Headlines`.
pub struct HeadlinesView {
    pub articles: Seq<NewsCardView>,
    pub config: HeadlinesConfigView,
    pub api_key_initialized: bool,
}

impl HeadlinesView {
    /// Whether the visible articles are within the cap.
    pub open spec fn within_cap(self) -> bool {
        self.articles.len() <= MAX_ARTICLES
    }

    /// The state after one poll of a channel in which `queue` waits: the
    /// oldest record becomes visible if there is one and the cap is not
    /// reached.
    pub open spec fn after_poll(self, queue: Seq<NewsCardView>) -> HeadlinesView {
        if queue.len() > 0 && self.articles.len() < MAX_ARTICLES {
            HeadlinesView { articles: self.articles.push(queue[0]), ..self }
        } else {
            self
        }
    }
}

/// The presentation state and the article channel after `ticks` polls, one
/// for each tick, with nothing sent in between.
pub open spec fn after_ticks(headlines: HeadlinesView, channel: ArticleChannelView, ticks: nat) -> (
    HeadlinesView,
    ArticleChannelView,
)
    decreases ticks,
{
    if ticks == 0 {
        (headlines, channel)
    } else {
        after_ticks(
            headlines.after_poll(channel.queue),
            channel.after_recv(),
            (ticks - 1) as nat,
        )
    }
}

/// Polling a channel in which nothing waits changes neither the channel nor
/// what is visible, however often it is done.
pub proof fn lemma_empty_polls_change_nothing(
    headlines: HeadlinesView,
    channel: ArticleChannelView,
    ticks: nat,
)
    requires
        channel.queue.len() == 0,
    ensures
        after_ticks(headlines, channel, ticks) == (headlines, channel),
    decreases ticks,
{
    if ticks > 0 {
        lemma_empty_polls_change_nothing(headlines, channel, (ticks - 1) as nat);
    }
}

impl View for Headlines {
    type V = HeadlinesView;

    open spec fn view(&self) -> HeadlinesView {
        HeadlinesView {
            articles: card_views(self.articles@),
            config: self.config@,
            api_key_initialized: self.api_key_initialized,
        }
    }
}

impl Headlines {
    /// The state at startup under the loaded settings: nothing is visible,
    /// and a key counts as set if the settings hold one.
    pub fn new(config: HeadlinesConfig) -> (headlines: Headlines)
        ensures
            headlines@ == (HeadlinesView {
                articles: Seq::empty(),
                config: config@,
                api_key_initialized: config@.api_key.len() > 0,
            }),
    {
        let api_key_initialized = !config.api_key.as_str().is_empty();
        let headlines = Headlines { articles: Vec::new(), api_key_initialized, config };
        assert(headlines@.articles =~= Seq::empty());
        headlines
    }

    /// Polls the article channel once, without waiting. A record that
    /// arrives becomes visible unless `MAX_ARTICLES` are visible already; it
    /// leaves the channel either way. Where nothing waits, nothing changes,
    /// and the caller is told whether the channel is empty or disconnected.
    pub fn preload_articles(&mut self, news_rx: &mut ArticleChannel) -> (polled: Result<
        (),
        TryRecvError,
    >)
        ensures
            final(self)@ == old(self)@.after_poll(old(news_rx)@.queue),
            final(news_rx)@ == old(news_rx)@.after_recv(),
            old(news_rx)@.queue.len() > 0 ==> polled is Ok,
            old(news_rx)@.queue.len() == 0 ==> polled is Err && polled->Err_0
                == old(news_rx)@.nothing_waits(),
            old(self)@.within_cap() ==> final(self)@.within_cap(),
    {
        match news_rx.try_recv() {
            Ok(news_data) => {
                if self.articles.len() < MAX_ARTICLES {
                    self.articles.push(news_data);
                    assert(self@.articles =~= old(self)@.articles.push(news_data@));
                }
                Ok(())
            },
            Err(e) => Err(e),
        }
    }

    /// Polls the article channel up to `max_new` times without waiting, and
    /// stops early once nothing waits. Returns how many records left the
    /// channel; that many polls decide which of them are visible.
    pub fn drain(&mut self, news_rx: &mut ArticleChannel, max_new: usize) -> (taken: usize)
        ensures
            taken == min(max_new as int, old(news_rx)@.queue.len() as int),
            (final(self)@, final(news_rx)@) == after_ticks(
                old(self)@,
                old(news_rx)@,
                max_new as nat,
            ),
            old(self)@.within_cap() ==> final(self)@.within_cap(),
    {
        let mut taken: usize = 0;
        while taken < max_new
            invariant
                taken <= max_new,
                taken <= old(news_rx)@.queue.len(),
                news_rx@.queue.len() == old(news_rx)@.queue.len() - taken,
                after_ticks(self@, news_rx@, (max_new - taken) as nat) == after_ticks(
                    old(self)@,
                    old(news_rx)@,
                    max_new as nat,
                ),
                old(self)@.within_cap() ==> self@.within_cap(),
            decreases max_new - taken,
        {
            if self.preload_articles(news_rx).is_err() {
                proof {
                    lemma_empty_polls_change_nothing(
                        self@,
                        news_rx@,
                        (max_new - taken) as nat,
                    );
                }
                return taken;
            }
            taken += 1;
        }
        taken
    }

    /// Asks for a refresh at the next tick.
    pub fn request_refresh(&mut self)
        ensures
            final(self)@ == (HeadlinesView {
                config: HeadlinesConfigView { refresh_news_data: true, ..old(self)@.config },
                ..old(self)@
            }),
    {
        self.config.refresh_news_data = true;
    }

    /// Switches between the dark and the light theme.
    pub fn toggle_theme(&mut self)
        ensures
            final(self)@ == (HeadlinesView {
                config: HeadlinesConfigView {
                    dark_mode: !old(self)@.config.dark_mode,
                    ..old(self)@.config
                },
                ..old(self)@
            }),
    {
        self.config.dark_mode = !self.config.dark_mode;
    }

    /// Consumes a pending refresh: the flag is cleared, and where it was set
    /// the request to execute is handed out, with the default selectors
    /// under the key of the settings.
    pub fn take_refresh(&mut self) -> (request: Option<NewsAPI>)
        ensures
            final(self)@ == (HeadlinesView {
                config: HeadlinesConfigView { refresh_news_data: false, ..old(self)@.config },
                ..old(self)@
            }),
            old(self)@.config.refresh_news_data ==> request is Some && request->Some_0@
                == default_request(old(self)@.config.api_key),
            !old(self)@.config.refresh_news_data ==> request is None,
    {
        if self.config.refresh_news_data {
            self.config.refresh_news_data = false;
            Some(NewsAPI::new(self.config.api_key.as_str()))
        } else {
            None
        }
    }

    /// Confirms the key that the settings now hold: from here on a key
    /// counts as set, and the event that tells the worker is handed out.
    pub fn confirm_key(&mut self) -> (event: Msg)
        ensures
            final(self)@ == (HeadlinesView { api_key_initialized: true, ..old(self)@ }),
            event@ == MsgView::ApiKeySet(old(self)@.config.api_key),
    {
        self.api_key_initialized = true;
        Msg::ApiKeySet(self.config.api_key.clone())
    }
}

} // verus!
