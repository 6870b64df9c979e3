//! Workspace events, and which of them count as activity in a channel.

use vstd::prelude::*;
use crate::text::same_text;
use crate::timestamp::{optional_timestamp, Timestamp};
use crate::value::RawValue;

verus! {

/// One event of a channel's history.
#[derive(Clone, Debug)]
pub struct Message {
    pub event_type: String,
    pub subtype: String,
    pub channel: Option<String>,
    pub user: Option<String>,
    pub text: Option<String>,
    pub ts: Option<Timestamp>,
}

/// What a message holds, with every text as a sequence of characters.
pub struct MessageView {
    pub event_type: Seq<char>,
    pub subtype: Seq<char>,
    pub channel: Option<Seq<char>>,
    pub user: Option<Seq<char>>,
    pub text: Option<Seq<char>>,
    pub ts: Option<Timestamp>,
}

impl View for Message {
    type V = MessageView;

    open spec fn view(&self) -> MessageView {
        MessageView {
            event_type: self.event_type@,
            subtype: self.subtype@,
            channel: self.channel.deep_view(),
            user: self.user.deep_view(),
            text: self.text.deep_view(),
            ts: self.ts,
        }
    }
}

/// A message record as it arrives, its timestamp still raw.
#[derive(Clone, Debug)]
pub struct RawMessage {
    pub event_type: Option<String>,
    pub subtype: Option<String>,
    pub channel: Option<String>,
    pub user: Option<String>,
    pub text: Option<String>,
    pub ts: Option<RawValue>,
}

/// Whether a subtype marks an event that says nothing of a channel's
/// activity: what bots do and post, deletions, the coming and going of
/// members, changes of topic, purpose, name and archive state, pins, and
/// changes of permission.
pub open spec fn ignored_subtype(subtype: Seq<char>) -> bool {
    ||| subtype == "bot_add"@
    ||| subtype == "bot_remove"@
    ||| subtype == "bot_message"@
    ||| subtype == "message_deleted"@
    ||| subtype == "channel_join"@
    ||| subtype == "channel_leave"@
    ||| subtype == "channel_topic"@
    ||| subtype == "channel_purpose"@
    ||| subtype == "channel_name"@
    ||| subtype == "channel_archive"@
    ||| subtype == "channel_unarchive"@
    ||| subtype == "pinned_item"@
    ||| subtype == "unpinned_item"@
    ||| subtype == "ekm_access_denied"@
    ||| subtype == "channel_posting_permissions"@
}

/// Whether an event is irrelevant to activity: any event that is no plain
/// message, and any message with an ignored subtype.
pub open spec fn irrelevant(event_type: Seq<char>, subtype: Seq<char>) -> bool {
    event_type != "message"@ || ignored_subtype(subtype)
}

impl MessageView {
    /// Whether this event is irrelevant to channel activity.
    pub open spec fn ignored(self) -> bool {
        irrelevant(self.event_type, self.subtype)
    }
}

/// The message that a raw record normalizes to: a missing type or subtype is
/// empty, a missing or null timestamp is none. `None` where the timestamp is
/// there and denotes none.
pub open spec fn normalized_message(raw: RawMessage) -> Option<MessageView> {
    match optional_timestamp(raw.ts) {
        Ok(ts) => Some(
            MessageView {
                event_type: match raw.event_type {
                    Some(t) => t@,
                    None => Seq::empty(),
                },
                subtype: match raw.subtype {
                    Some(t) => t@,
                    None => Seq::empty(),
                },
                channel: raw.channel.deep_view(),
                user: raw.user.deep_view(),
                text: raw.text.deep_view(),
                ts,
            },
        ),
        Err(_) => None,
    }
}

/// The views of a run of messages.
pub open spec fn message_views(s: Seq<Message>) -> Seq<MessageView> {
    s.map_values(|m: Message| m@)
}

/// The messages of a batch of raw records: each record that normalizes, in
/// the order of the batch.
pub open spec fn kept_messages(raws: Seq<RawMessage>) -> Seq<MessageView>
    decreases raws.len(),
{
    if raws.len() == 0 {
        Seq::empty()
    } else {
        match normalized_message(raws.last()) {
            Some(m) => kept_messages(raws.drop_last()).push(m),
            None => kept_messages(raws.drop_last()),
        }
    }
}

impl Message {
    /// Whether the message is irrelevant to channel activity.
    pub fn ignore_type(&self) -> (r: bool)
        ensures
            r == self@.ignored(),
    {
        if !same_text(self.event_type.as_str(), "message") {
            return true;
        }
        let t = self.subtype.as_str();
        same_text(t, "bot_add") || same_text(t, "bot_remove") || same_text(t, "bot_message")
            || same_text(t, "message_deleted") || same_text(t, "channel_join") || same_text(
            t,
            "channel_leave",
        ) || same_text(t, "channel_topic") || same_text(t, "channel_purpose") || same_text(
            t,
            "channel_name",
        ) || same_text(t, "channel_archive") || same_text(t, "channel_unarchive") || same_text(
            t,
            "pinned_item",
        ) || same_text(t, "unpinned_item") || same_text(t, "ekm_access_denied") || same_text(
            t,
            "channel_posting_permissions",
        )
    }
}

/// Normalizes one raw message record.
pub fn normalize_message(raw: RawMessage) -> (r: Option<Message>)
    ensures
        match r {
            Some(m) => normalized_message(raw) == Some(m@),
            None => normalized_message(raw) is None,
        },
{
    let ts = match Timestamp::from_optional(&raw.ts) {
        Ok(t) => t,
        Err(_) => return None,
    };
    let event_type = match raw.event_type {
        Some(t) => t,
        None => String::new(),
    };
    let subtype = match raw.subtype {
        Some(t) => t,
        None => String::new(),
    };
    Some(Message { event_type, subtype, channel: raw.channel, user: raw.user, text: raw.text, ts })
}

/// Normalizes a batch of raw message records, dropping each record whose
/// timestamp is malformed and keeping the rest in order.
pub fn normalize_messages(raws: Vec<RawMessage>) -> (r: Vec<Message>)
    ensures
        message_views(r@) == kept_messages(raws@),
{
    let ghost all = raws@;
    let mut out: Vec<Message> = Vec::new();
    assert(message_views(out@) =~= kept_messages(all.take(0)));
    for raw in it: raws
        invariant
            it.seq() == all,
            message_views(out@) == kept_messages(all.take(it.index() as int)),
    {
        let ghost k = it.index() as int;
        let ghost before = out@;
        assert(all.take(k + 1).drop_last() =~= all.take(k));
        assert(all.take(k + 1).last() == raw);
        match normalize_message(raw) {
            Some(m) => {
                out.push(m);
                assert(message_views(out@) =~= message_views(before).push(m@));
            },
            None => {},
        }
    }
    assert(all.take(all.len() as int) =~= all);
    out
}

} // verus!
