//! A news reader's fetch-and-update pipeline: the feed client, the channels
//! between the background worker and the presentation loop, the worker's state
//! machine, and the presentation state that polls for new articles.

pub mod channel;
pub mod headlines;
pub mod newsapi;
pub mod pipeline;
pub mod worker;
