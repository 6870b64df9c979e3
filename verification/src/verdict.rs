//! The verdict on one channel: how many members it really has, when it was
//! last active, and whether that makes it stale, small or ignored.

use vstd::prelude::*;
use crate::channel::{Channel, ChannelView};
use crate::clock::unix_now;
use crate::bot::ArchiveBot;
use crate::config::Config;
use crate::message::{Message, MessageView};

verus! {

/// Parsed channel data.
#[derive(Debug, Clone, PartialEq)]
pub struct ChannelData {
    pub id: String,
    pub name: String,
    pub last_message_ts: i64,
    pub last_message_relevant: bool,
    pub num_members: i32,
    pub is_old: bool,
    pub is_small: bool,
    pub is_ignored: bool,
    pub is_private: bool,
}

/// What a verdict holds, with every text as a sequence of characters.
pub struct ChannelDataView {
    pub id: Seq<char>,
    pub name: Seq<char>,
    pub last_message_ts: i64,
    pub last_message_relevant: bool,
    pub num_members: int,
    pub is_old: bool,
    pub is_small: bool,
    pub is_ignored: bool,
    pub is_private: bool,
}

impl View for ChannelData {
    type V = ChannelDataView;

    open spec fn view(&self) -> ChannelDataView {
        ChannelDataView {
            id: self.id@,
            name: self.name@,
            last_message_ts: self.last_message_ts,
            last_message_relevant: self.last_message_relevant,
            num_members: self.num_members as int,
            is_old: self.is_old,
            is_small: self.is_small,
            is_ignored: self.is_ignored,
            is_private: self.is_private,
        }
    }
}

/// Two weeks, in seconds.
pub const TWO_WEEKS: u32 = 1_209_600;

/// Whether activity at `ts` is stale at `now`: there is a timestamp, and more
/// than `stale_after` seconds have passed since. Exactly `stale_after`
/// seconds is not yet stale.
pub open spec fn stale(ts: int, now: int, stale_after: int) -> bool {
    ts > 0 && now - ts > stale_after
}

/// The members of a channel without the bot itself.
pub open spec fn effective_members(num_members: int, is_member: bool) -> int {
    if is_member {
        num_members - 1
    } else {
        num_members
    }
}

/// The seconds of a message's timestamp, zero where it has none.
pub open spec fn message_seconds(m: MessageView) -> i64 {
    match m.ts {
        Some(t) => t.0,
        None => 0,
    }
}

/// The timestamp of the last activity found: zero where no message was found.
pub open spec fn last_activity(last: Option<MessageView>) -> i64 {
    match last {
        Some(m) => message_seconds(m),
        None => 0,
    }
}

/// The verdict on a channel, from what upstream reports of it, whether the
/// bot is effectively a member, the last message found and the thresholds.
pub open spec fn classified(
    config: Config,
    channel: ChannelView,
    is_member: bool,
    last: Option<MessageView>,
    now: int,
) -> ChannelDataView {
    ChannelDataView {
        id: channel.id,
        name: channel.name,
        last_message_ts: last_activity(last),
        last_message_relevant: match last {
            Some(m) => !m.ignored(),
            None => false,
        },
        num_members: effective_members(channel.num_members, is_member),
        is_old: stale(last_activity(last) as int, now, config.stale_after as int),
        is_small: effective_members(channel.num_members, is_member)
            <= config.small_channel_threshold,
        is_ignored: config.ignores(channel.name),
        is_private: channel.is_private,
    }
}

impl ChannelDataView {
    /// Whether the channel belongs in the report: it is stale or small, and
    /// it is not ignored.
    pub open spec fn reportable(self) -> bool {
        (self.is_old || self.is_small) && !self.is_ignored
    }
}

/// Whether activity at `ts` is stale at `now`.
pub fn is_stale(ts: i64, now: i64, stale_after: u32) -> (r: bool)
    ensures
        r == stale(ts as int, now as int, stale_after as int),
{
    ts > 0 && (now as i128) - (ts as i128) > (stale_after as i128)
}

/// Whether a message is older than two weeks at the time `now`: it has a
/// timestamp, and that is stale by the two-week threshold.
pub open spec fn old_at(message: MessageView, now: int) -> bool {
    message.ts is Some && stale(message.ts.unwrap()@, now, TWO_WEEKS as int)
}

/// Whether a message is older than two weeks at `now`. A message without a
/// timestamp is not.
pub fn message_is_old_at(message: &Message, now: i64) -> (r: bool)
    ensures
        r == old_at(message@, now as int),
{
    match message.ts {
        Some(ts) => is_stale(ts.0, now, TWO_WEEKS),
        None => false,
    }
}

/// Whether a message is older than two weeks at the time of the call.
pub fn message_is_old(message: &Message) -> (r: bool)
    ensures
        exists|now: i64| r == #[trigger] old_at(message@, now as int),
{
    let now: i64 = unix_now();
    message_is_old_at(message, now)
}

impl ArchiveBot {
    /// Computes the verdict on a channel at the time `now`.
    ///
    /// `is_member` says whether the bot is effectively a member, after any
    /// attempt to join; `last_message` is the message that the scan of the
    /// channel's history selected, if it found one.
    pub fn classify(
        &self,
        channel: &Channel,
        is_member: bool,
        last_message: Option<&Message>,
        now: i64,
    ) -> (r: ChannelData)
        requires
            channel.wf(),
        ensures
            r@ == classified(
                self.config,
                channel@,
                is_member,
                match last_message {
                    Some(m) => Some(m@),
                    None => None,
                },
                now as int,
            ),
    {
        let is_ignored = self.channel_is_ignored(channel.name.as_str());
        let mut last_message_ts: i64 = 0;
        let mut last_message_relevant = false;
        match last_message {
            Some(msg) => {
                match msg.ts {
                    Some(ts) => {
                        last_message_ts = ts.0;
                    },
                    None => {},
                }
                last_message_relevant = !msg.ignore_type();
            },
            None => {},
        }
        let is_old = is_stale(last_message_ts, now, self.config.stale_after);
        let num_members: i32 = if is_member {
            channel.num_members - 1
        } else {
            channel.num_members
        };
        let is_small = num_members <= self.config.small_channel_threshold as i32;
        ChannelData {
            id: channel.id.clone(),
            name: channel.name.clone(),
            last_message_ts,
            last_message_relevant,
            num_members,
            is_old,
            is_small,
            is_ignored,
            is_private: channel.is_private,
        }
    }

    /// Whether a channel should be included in updates.
    pub fn channel_should_be_mentioned(&self, channel: &ChannelData) -> (r: bool)
        ensures
            r == channel@.reportable(),
    {
        (channel.is_old || channel.is_small) && !channel.is_ignored
    }
}

/// Staleness turns exactly past the threshold: one second more than
/// `stale_after` ago is stale, `stale_after` seconds ago and anything more
/// recent is not, and a zero timestamp never is.
pub proof fn lemma_staleness_boundary(now: int, stale_after: int, ts: int)
    requires
        stale_after >= 0,
    ensures
        now - stale_after - 1 > 0 ==> stale(now - stale_after - 1, now, stale_after),
        !stale(now - stale_after, now, stale_after),
        !stale(now - stale_after + 1, now, stale_after),
        ts > 0 ==> (stale(ts, now, stale_after) <==> ts < now - stale_after),
        !stale(0, now, stale_after),
{
}

/// The bot never counts itself: as a member it lowers the count by one, and
/// otherwise leaves it.
pub proof fn lemma_membership_adjustment(
    config: Config,
    channel: ChannelView,
    last: Option<MessageView>,
    now: int,
)
    ensures
        classified(config, channel, true, last, now).num_members == channel.num_members - 1,
        classified(config, channel, false, last, now).num_members == channel.num_members,
{
}

} // verus!
