//! Audits the channels of a group-messaging workspace: which of them have gone
//! quiet, which have few members, and what one summary message says about them.
//!
//! Nothing here talks to the network. A run asks the library what to call
//! next, makes the call, and hands the answer back.

pub mod bot;
pub mod channel;
mod clock;
pub mod config;
pub mod enumerate;
pub mod error;
pub mod inspect;
pub mod message;
pub mod order;
pub mod report;
pub mod request;
pub mod response;
pub mod run;
pub mod text;
pub mod timestamp;
pub mod value;
pub mod verdict;

pub use crate::bot::ArchiveBot;
pub use crate::channel::Channel;
pub use crate::config::Config;
pub use crate::error::SlackError;
pub use crate::message::Message;
pub use crate::response::{SlackResponse, SlackResponseMeta};
pub use crate::timestamp::Timestamp;
pub use crate::verdict::ChannelData;
