//! The bridge between the worker and the presentation loop: an unbounded
//! queue of articles one way, a single slot for control events the other way.
//! Neither operation here waits: a full slot and an empty queue are answers.

use crate::headlines::{card_views, Msg, MsgView, NewsCardData, NewsCardView};
use std::collections::VecDeque;
use vstd::prelude::*;

verus! {

/// The most control events that can wait for the worker at once.
pub const CONTROL_CAPACITY: usize = 1;

/// Why nothing was received.
#[derive(Debug, Clone, Copy, PartialEq, Eq)]
pub enum TryRecvError {
    /// Nothing is waiting; something may arrive later.
    Empty,
    /// Nothing is waiting and the other end is gone.
    Disconnected,
}

/// A record that was not sent because the other end is gone.
#[derive(Debug, Clone, PartialEq, Eq)]
pub struct SendError(pub NewsCardData);

/// A control event that was not sent.
#[derive(Debug, Clone, PartialEq, Eq)]
pub enum TrySendError {
    /// The slot is taken: the sender has to wait until the worker empties it.
    Full(Msg),
    /// The other end is gone.
    Disconnected(Msg),
}

/// The article channel: records wait in the order in which they were sent,
/// without a bound.
pub struct ArticleChannel {
    queue: VecDeque<NewsCardData>,
    connected: bool,
}

/// The mathematical value of an `ArticleChannel`.
pub struct ArticleChannelView {
    /// The records that wait, the oldest first.
    pub queue: Seq<NewsCardView>,
    /// Whether both ends are still there.
    pub connected: bool,
}

impl ArticleChannelView {
    /// The channel after each of `cards` was sent in order: a connected
    /// channel holds them behind what waited, a disconnected one took none.
    pub open spec fn after_sends(self, cards: Seq<NewsCardView>) -> ArticleChannelView {
        if self.connected {
            ArticleChannelView { queue: self.queue + cards, connected: true }
        } else {
            self
        }
    }

    /// The channel after an attempt to receive.
    pub open spec fn after_recv(self) -> ArticleChannelView {
        if self.queue.len() > 0 {
            ArticleChannelView { queue: self.queue.drop_first(), connected: self.connected }
        } else {
            self
        }
    }

    /// What a receiver is told when nothing waits.
    pub open spec fn nothing_waits(self) -> TryRecvError {
        if self.connected {
            TryRecvError::Empty
        } else {
            TryRecvError::Disconnected
        }
    }
}

impl View for ArticleChannel {
    type V = ArticleChannelView;

    closed spec fn view(&self) -> ArticleChannelView {
        ArticleChannelView { queue: card_views(self.queue@), connected: self.connected }
    }
}

impl ArticleChannel {
    /// A connected channel in which nothing waits.
    pub fn new() -> (channel: ArticleChannel)
        ensures
            channel@ == (ArticleChannelView { queue: Seq::empty(), connected: true }),
    {
        let channel = ArticleChannel { queue: VecDeque::new(), connected: true };
        assert(channel@.queue =~= Seq::empty());
        channel
    }

    /// The number of records that wait.
    pub fn len(&self) -> (len: usize)
        ensures
            len == self@.queue.len(),
    {
        self.queue.len()
    }

    /// Whether both ends are still there.
    pub fn is_connected(&self) -> (connected: bool)
        ensures
            connected == self@.connected,
    {
        self.connected
    }

    /// Puts a record behind those that wait. A disconnected channel takes
    /// nothing and hands the record back.
    pub fn send(&mut self, record: NewsCardData) -> (sent: Result<(), SendError>)
        ensures
            final(self)@ == old(self)@.after_sends(seq![record@]),
            old(self)@.connected ==> sent is Ok,
            !old(self)@.connected ==> sent is Err && sent->Err_0.0 == record,
    {
        if self.connected {
            self.queue.push_back(record);
            assert(self@.queue =~= old(self)@.queue + seq![record@]);
            Ok(())
        } else {
            Err(SendError(record))
        }
    }

    /// Takes the oldest record that waits, without waiting for one. What was
    /// sent before a disconnection can still be received after it.
    pub fn try_recv(&mut self) -> (received: Result<NewsCardData, TryRecvError>)
        ensures
            final(self)@ == old(self)@.after_recv(),
            old(self)@.queue.len() > 0 ==> received is Ok && received->Ok_0@ == old(self)@.queue[0],
            old(self)@.queue.len() == 0 ==> received is Err && received->Err_0
                == old(self)@.nothing_waits(),
    {
        match self.queue.pop_front() {
            Some(record) => {
                assert(self@.queue =~= old(self)@.queue.drop_first());
                Ok(record)
            },
            None => {
                if self.connected {
                    Err(TryRecvError::Empty)
                } else {
                    Err(TryRecvError::Disconnected)
                }
            },
        }
    }

    /// Marks the other end as gone. What waits stays.
    pub fn disconnect(&mut self)
        ensures
            final(self)@ == (ArticleChannelView { queue: old(self)@.queue, connected: false }),
    {
        self.connected = false;
    }
}

/// The control channel: at most `CONTROL_CAPACITY` events wait for the
/// worker, so a sender cannot run ahead of it.
pub struct ControlChannel {
    slot: Option<Msg>,
    connected: bool,
}

/// The mathematical value of a `ControlChannel`.
pub struct ControlChannelView {
    /// The events that wait, the oldest first.
    pub pending: Seq<MsgView>,
    /// Whether both ends are still there.
    pub connected: bool,
}

impl ControlChannelView {
    /// Whether a send would be taken rather than made to wait or refused.
    pub open spec fn accepts(self) -> bool {
        self.connected && self.pending.len() < CONTROL_CAPACITY
    }

    /// The channel after an attempt to send `event`.
    pub open spec fn after_send(self, event: MsgView) -> ControlChannelView {
        if self.accepts() {
            ControlChannelView { pending: self.pending.push(event), connected: self.connected }
        } else {
            self
        }
    }

    /// The channel after an attempt to receive.
    pub open spec fn after_recv(self) -> ControlChannelView {
        if self.pending.len() > 0 {
            ControlChannelView { pending: self.pending.drop_first(), connected: self.connected }
        } else {
            self
        }
    }

    /// What a receiver is told when nothing waits.
    pub open spec fn nothing_waits(self) -> TryRecvError {
        if self.connected {
            TryRecvError::Empty
        } else {
            TryRecvError::Disconnected
        }
    }
}

impl View for ControlChannel {
    type V = ControlChannelView;

    closed spec fn view(&self) -> ControlChannelView {
        ControlChannelView {
            pending: match self.slot {
                Some(event) => seq![event@],
                None => Seq::empty(),
            },
            connected: self.connected,
        }
    }
}

impl ControlChannel {
    /// A connected channel in which nothing waits.
    pub fn new() -> (channel: ControlChannel)
        ensures
            channel@ == (ControlChannelView { pending: Seq::empty(), connected: true }),
    {
        ControlChannel { slot: None, connected: true }
    }

    /// The number of events that wait.
    pub fn len(&self) -> (len: usize)
        ensures
            len == self@.pending.len(),
            len <= CONTROL_CAPACITY,
    {
        match &self.slot {
            Some(_) => 1,
            None => 0,
        }
    }

    /// Whether both ends are still there.
    pub fn is_connected(&self) -> (connected: bool)
        ensures
            connected == self@.connected,
    {
        self.connected
    }

    /// Offers an event to the worker without waiting. The event is taken
    /// only by a connected channel in which nothing waits; otherwise it comes
    /// back, as `Disconnected` where the other end is gone and as `Full`
    /// where the sender has to wait for the worker.
    pub fn try_send(&mut self, event: Msg) -> (sent: Result<(), TrySendError>)
        ensures
            final(self)@ == old(self)@.after_send(event@),
            sent is Ok <==> old(self)@.accepts(),
            !old(self)@.connected ==> sent is Err && sent->Err_0 == TrySendError::Disconnected(
                event,
            ),
            old(self)@.connected && !old(self)@.accepts() ==> sent is Err && sent->Err_0
                == TrySendError::Full(event),
    {
        if !self.connected {
            Err(TrySendError::Disconnected(event))
        } else if self.slot.is_some() {
            Err(TrySendError::Full(event))
        } else {
            self.slot = Some(event);
            assert(self@.pending =~= old(self)@.pending.push(event@));
            Ok(())
        }
    }

    /// Takes the event that waits, without waiting for one.
    pub fn try_recv(&mut self) -> (received: Result<Msg, TryRecvError>)
        ensures
            final(self)@ == old(self)@.after_recv(),
            old(self)@.pending.len() > 0 ==> received is Ok && received->Ok_0@
                == old(self)@.pending[0],
            old(self)@.pending.len() == 0 ==> received is Err && received->Err_0
                == old(self)@.nothing_waits(),
    {
        match self.slot.take() {
            Some(event) => {
                assert(self@.pending =~= old(self)@.pending.drop_first());
                Ok(event)
            },
            None => {
                if self.connected {
                    Err(TryRecvError::Empty)
                } else {
                    Err(TryRecvError::Disconnected)
                }
            },
        }
    }

    /// Marks the other end as gone. What waits stays.
    pub fn disconnect(&mut self)
        ensures
            final(self)@ == (ControlChannelView { pending: old(self)@.pending, connected: false }),
    {
        self.connected = false;
    }

    /// At no point do more than `CONTROL_CAPACITY` events wait.
    pub proof fn lemma_capacity(&self)
        ensures
            self@.pending.len() <= CONTROL_CAPACITY,
    {
    }
}

/// A second event sent right behind a first one that was taken is made to
/// wait: the channel stays as the first send left it, with one event in it.
/// Once the worker has received, the slot is free again.
pub proof fn lemma_second_send_waits(channel: ControlChannelView, first: MsgView, second: MsgView)
    requires
        channel.accepts(),
    ensures
        !channel.after_send(first).accepts(),
        channel.after_send(first).after_send(second) == channel.after_send(first),
        channel.after_send(first).pending == seq![first],
        channel.after_send(first).after_recv().accepts(),
        channel.after_send(first).after_recv().after_send(second).pending == seq![second],
{
    let held = channel.after_send(first);
    assert(channel.pending =~= Seq::empty());
    assert(held.pending =~= seq![first]);
    assert(held.after_recv().pending =~= Seq::empty());
    assert(held.after_recv().after_send(second).pending =~= seq![second]);
}

} // verus!
