//! What the worker, the article channel and the presentation state
//! guarantee together over any number of ticks.

use crate::channel::ArticleChannelView;
use crate::headlines::{
    after_ticks, lemma_empty_polls_change_nothing, HeadlinesView, NewsCardView, MAX_ARTICLES,
};
use vstd::math::min;
use vstd::prelude::*;

verus! {

/// `ticks` polls take the oldest `ticks` records out of the channel, or all
/// of them if fewer wait. Of those, the first ones become visible, in the
/// order in which they were sent, until `MAX_ARTICLES` are visible; the
/// rest is discarded. Nothing else changes.
pub proof fn lemma_ticks_drain_in_order(
    headlines: HeadlinesView,
    channel: ArticleChannelView,
    ticks: nat,
)
    requires
        headlines.within_cap(),
    ensures
        ({
            let taken = min(ticks as int, channel.queue.len() as int);
            let shown = min(taken, MAX_ARTICLES - headlines.articles.len());
            after_ticks(headlines, channel, ticks) == (
                HeadlinesView {
                    articles: headlines.articles + channel.queue.subrange(0, shown),
                    ..headlines
                },
                ArticleChannelView {
                    queue: channel.queue.subrange(taken, channel.queue.len() as int),
                    connected: channel.connected,
                },
            )
        }),
    decreases ticks,
{
    let queue = channel.queue;
    let taken = min(ticks as int, queue.len() as int);
    let shown = min(taken, MAX_ARTICLES - headlines.articles.len());
    if ticks == 0 || queue.len() == 0 {
        if ticks > 0 {
            lemma_empty_polls_change_nothing(headlines, channel, ticks);
        }
        assert(headlines.articles + queue.subrange(0, shown) =~= headlines.articles);
        assert(queue.subrange(taken, queue.len() as int) =~= queue);
    } else {
        let next_headlines = headlines.after_poll(queue);
        let next_channel = channel.after_recv();
        lemma_ticks_drain_in_order(next_headlines, next_channel, (ticks - 1) as nat);
        let next_taken = min(ticks - 1, next_channel.queue.len() as int);
        let next_shown = min(next_taken, MAX_ARTICLES - next_headlines.articles.len());
        assert(next_taken == taken - 1);
        assert(next_channel.queue.subrange(next_taken, next_channel.queue.len() as int)
            =~= queue.subrange(taken, queue.len() as int));
        assert(next_headlines.articles + next_channel.queue.subrange(0, next_shown)
            =~= headlines.articles + queue.subrange(0, shown));
    }
}

/// The visible articles never exceed `MAX_ARTICLES`, whatever waits in the
/// channel and however many ticks pass.
pub proof fn lemma_ticks_keep_cap(headlines: HeadlinesView, channel: ArticleChannelView, ticks: nat)
    requires
        headlines.within_cap(),
    ensures
        after_ticks(headlines, channel, ticks).0.within_cap(),
{
    lemma_ticks_drain_in_order(headlines, channel, ticks);
}

/// Records that are sent onto an empty connected channel while nothing is
/// visible, and then polled for at least as many ticks as there are records,
/// all leave the channel. Visible are the first `MAX_ARTICLES` of them in
/// the order in which they were sent, which is all of them if they are no
/// more than that; every later one is discarded.
pub proof fn lemma_sent_records_become_visible(
    headlines: HeadlinesView,
    channel: ArticleChannelView,
    records: Seq<NewsCardView>,
    ticks: nat,
)
    requires
        headlines.articles.len() == 0,
        channel.queue.len() == 0,
        channel.connected,
        ticks >= records.len(),
    ensures
        after_ticks(headlines, channel.after_sends(records), ticks).0.articles == records.subrange(
            0,
            min(records.len() as int, MAX_ARTICLES as int),
        ),
        records.len() <= MAX_ARTICLES ==> after_ticks(
            headlines,
            channel.after_sends(records),
            ticks,
        ).0.articles == records,
        after_ticks(headlines, channel.after_sends(records), ticks).1.queue.len() == 0,
{
    let filled = channel.after_sends(records);
    assert(filled.queue =~= records);
    lemma_ticks_drain_in_order(headlines, filled, ticks);
    let shown = min(records.len() as int, MAX_ARTICLES as int);
    assert(headlines.articles + records.subrange(0, shown) =~= records.subrange(0, shown));
    if records.len() <= MAX_ARTICLES {
        assert(records.subrange(0, shown) =~= records);
    }
}

} // verus!
