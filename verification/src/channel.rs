//! Channels, and the rules that turn raw channel records into them.

use vstd::prelude::*;
use crate::timestamp::{optional_timestamp, Timestamp};
use crate::value::{boolean_truthy_or, truthy_or, NormalizeError, RawValue};

verus! {

/// A conversation of the workspace.
#[derive(Clone, Debug)]
pub struct Channel {
    pub id: String,
    pub name: String,
    pub is_channel: bool,
    pub is_group: bool,
    pub is_im: bool,
    pub created: Option<Timestamp>,
    pub creator: Option<String>,
    pub is_archived: bool,
    pub is_general: bool,
    pub unlinked: bool,
    pub name_normalized: Option<String>,
    pub is_read_only: bool,
    pub is_shared: bool,
    pub is_ext_shared: bool,
    pub is_org_shared: bool,
    pub pending_shared: Option<Vec<String>>,
    pub is_pending_ext_shared: bool,
    pub is_member: bool,
    pub is_private: bool,
    pub is_mpim: bool,
    pub last_read: Option<String>,
    pub previous_names: Option<Vec<String>>,
    pub num_members: i32,
}

/// What a channel holds, with every text as a sequence of characters.
pub struct ChannelView {
    pub id: Seq<char>,
    pub name: Seq<char>,
    pub is_channel: bool,
    pub is_group: bool,
    pub is_im: bool,
    pub created: Option<Timestamp>,
    pub creator: Option<Seq<char>>,
    pub is_archived: bool,
    pub is_general: bool,
    pub unlinked: bool,
    pub name_normalized: Option<Seq<char>>,
    pub is_read_only: bool,
    pub is_shared: bool,
    pub is_ext_shared: bool,
    pub is_org_shared: bool,
    pub pending_shared: Option<Seq<Seq<char>>>,
    pub is_pending_ext_shared: bool,
    pub is_member: bool,
    pub is_private: bool,
    pub is_mpim: bool,
    pub last_read: Option<Seq<char>>,
    pub previous_names: Option<Seq<Seq<char>>>,
    pub num_members: int,
}

impl View for Channel {
    type V = ChannelView;

    open spec fn view(&self) -> ChannelView {
        ChannelView {
            id: self.id@,
            name: self.name@,
            is_channel: self.is_channel,
            is_group: self.is_group,
            is_im: self.is_im,
            created: self.created,
            creator: self.creator.deep_view(),
            is_archived: self.is_archived,
            is_general: self.is_general,
            unlinked: self.unlinked,
            name_normalized: self.name_normalized.deep_view(),
            is_read_only: self.is_read_only,
            is_shared: self.is_shared,
            is_ext_shared: self.is_ext_shared,
            is_org_shared: self.is_org_shared,
            pending_shared: self.pending_shared.deep_view(),
            is_pending_ext_shared: self.is_pending_ext_shared,
            is_member: self.is_member,
            is_private: self.is_private,
            is_mpim: self.is_mpim,
            last_read: self.last_read.deep_view(),
            previous_names: self.previous_names.deep_view(),
            num_members: self.num_members as int,
        }
    }
}

impl Channel {
    /// A channel never reports fewer than zero members.
    pub open spec fn wf(self) -> bool {
        self.num_members >= 0
    }
}

/// A channel record as it arrives: texts and lists as sent, every boolean,
/// timestamp and count still raw, and any field possibly absent.
#[derive(Clone, Debug)]
pub struct RawChannel {
    pub id: Option<RawValue>,
    pub name: Option<RawValue>,
    pub is_channel: Option<RawValue>,
    pub is_group: Option<RawValue>,
    pub is_im: Option<RawValue>,
    pub created: Option<RawValue>,
    pub creator: Option<String>,
    pub is_archived: Option<RawValue>,
    pub is_general: Option<RawValue>,
    pub unlinked: Option<RawValue>,
    pub name_normalized: Option<String>,
    pub is_read_only: Option<RawValue>,
    pub is_shared: Option<RawValue>,
    pub is_ext_shared: Option<RawValue>,
    pub is_org_shared: Option<RawValue>,
    pub pending_shared: Option<Vec<String>>,
    pub is_pending_ext_shared: Option<RawValue>,
    pub is_member: Option<RawValue>,
    pub is_private: Option<RawValue>,
    pub is_mpim: Option<RawValue>,
    pub last_read: Option<String>,
    pub previous_names: Option<Vec<String>>,
    pub num_members: Option<RawValue>,
}

/// The member count that a raw field denotes: zero when absent, the integer
/// itself when it is one from zero up that fits, and none otherwise.
pub open spec fn raw_count(v: Option<RawValue>) -> Result<i32, NormalizeError> {
    match v {
        None => Ok(0i32),
        Some(RawValue::Integer(i)) => if 0 <= i <= i32::MAX {
            Ok(i as i32)
        } else {
            Err(NormalizeError::MalformedCount)
        },
        Some(_) => Err(NormalizeError::MalformedCount),
    }
}

/// The text of a field that must be a text where it is there: the empty text
/// when it is absent, and none when it is anything but a text.
pub open spec fn raw_text(v: Option<RawValue>) -> Option<Seq<char>> {
    match v {
        None => Some(Seq::empty()),
        Some(RawValue::Text(s)) => Some(s@),
        Some(_) => None,
    }
}

/// Whether every field of a raw channel record can be normalized: the
/// identifier is there and is a text, the name is a text if it is there, and
/// each boolean, the creation time and the member count denote what they
/// stand for.
pub open spec fn channel_normalizable(raw: RawChannel) -> bool {
    &&& raw.id is Some
    &&& raw_text(raw.id) is Some
    &&& raw_text(raw.name) is Some
    &&& truthy_or(raw.is_channel, true) is Ok
    &&& truthy_or(raw.is_group, false) is Ok
    &&& truthy_or(raw.is_im, false) is Ok
    &&& optional_timestamp(raw.created) is Ok
    &&& truthy_or(raw.is_archived, false) is Ok
    &&& truthy_or(raw.is_general, false) is Ok
    &&& truthy_or(raw.unlinked, false) is Ok
    &&& truthy_or(raw.is_read_only, false) is Ok
    &&& truthy_or(raw.is_shared, false) is Ok
    &&& truthy_or(raw.is_ext_shared, false) is Ok
    &&& truthy_or(raw.is_org_shared, false) is Ok
    &&& truthy_or(raw.is_pending_ext_shared, false) is Ok
    &&& truthy_or(raw.is_member, false) is Ok
    &&& truthy_or(raw.is_private, false) is Ok
    &&& truthy_or(raw.is_mpim, false) is Ok
    &&& raw_count(raw.num_members) is Ok
}

/// The channel that a raw record normalizes to, `None` where it cannot be.
///
/// A missing name is the empty name, a missing boolean is false (but
/// `is_channel`, which is true), a missing count is zero.
pub open spec fn normalized_channel(raw: RawChannel) -> Option<ChannelView> {
    if channel_normalizable(raw) {
        Some(
            ChannelView {
                id: raw_text(raw.id).unwrap(),
                name: raw_text(raw.name).unwrap(),
                is_channel: truthy_or(raw.is_channel, true).unwrap(),
                is_group: truthy_or(raw.is_group, false).unwrap(),
                is_im: truthy_or(raw.is_im, false).unwrap(),
                created: optional_timestamp(raw.created).unwrap(),
                creator: raw.creator.deep_view(),
                is_archived: truthy_or(raw.is_archived, false).unwrap(),
                is_general: truthy_or(raw.is_general, false).unwrap(),
                unlinked: truthy_or(raw.unlinked, false).unwrap(),
                name_normalized: raw.name_normalized.deep_view(),
                is_read_only: truthy_or(raw.is_read_only, false).unwrap(),
                is_shared: truthy_or(raw.is_shared, false).unwrap(),
                is_ext_shared: truthy_or(raw.is_ext_shared, false).unwrap(),
                is_org_shared: truthy_or(raw.is_org_shared, false).unwrap(),
                pending_shared: raw.pending_shared.deep_view(),
                is_pending_ext_shared: truthy_or(raw.is_pending_ext_shared, false).unwrap(),
                is_member: truthy_or(raw.is_member, false).unwrap(),
                is_private: truthy_or(raw.is_private, false).unwrap(),
                is_mpim: truthy_or(raw.is_mpim, false).unwrap(),
                last_read: raw.last_read.deep_view(),
                previous_names: raw.previous_names.deep_view(),
                num_members: raw_count(raw.num_members).unwrap() as int,
            },
        )
    } else {
        None
    }
}

/// The views of a run of channels.
pub open spec fn channel_views(s: Seq<Channel>) -> Seq<ChannelView> {
    s.map_values(|c: Channel| c@)
}

/// The channels of a batch of raw records: each record that normalizes, in
/// the order of the batch; the others are left out.
pub open spec fn kept_channels(raws: Seq<RawChannel>) -> Seq<ChannelView>
    decreases raws.len(),
{
    if raws.len() == 0 {
        Seq::empty()
    } else {
        match normalized_channel(raws.last()) {
            Some(c) => kept_channels(raws.drop_last()).push(c),
            None => kept_channels(raws.drop_last()),
        }
    }
}

/// Reads a member count.
pub fn normalize_count(value: &Option<RawValue>) -> (r: Result<i32, NormalizeError>)
    ensures
        r == raw_count(*value),
{
    match value {
        None => Ok(0),
        Some(RawValue::Integer(i)) => {
            if 0 <= *i && *i <= 0x7fff_ffff {
                Ok(*i as i32)
            } else {
                Err(NormalizeError::MalformedCount)
            }
        },
        Some(_) => Err(NormalizeError::MalformedCount),
    }
}

/// Normalizes one raw channel record. A record without an identifier that
/// is a text, or with a field that denotes nothing, gives no channel.
pub fn normalize_channel(raw: RawChannel) -> (r: Option<Channel>)
    ensures
        match r {
            Some(c) => normalized_channel(raw) == Some(c@) && c.wf(),
            None => normalized_channel(raw) is None,
        },
{
    let is_channel = match boolean_truthy_or(&raw.is_channel, true) {
        Ok(b) => b,
        Err(_) => return None,
    };
    let is_group = match boolean_truthy_or(&raw.is_group, false) {
        Ok(b) => b,
        Err(_) => return None,
    };
    let is_im = match boolean_truthy_or(&raw.is_im, false) {
        Ok(b) => b,
        Err(_) => return None,
    };
    let created = match Timestamp::from_optional(&raw.created) {
        Ok(t) => t,
        Err(_) => return None,
    };
    let is_archived = match boolean_truthy_or(&raw.is_archived, false) {
        Ok(b) => b,
        Err(_) => return None,
    };
    let is_general = match boolean_truthy_or(&raw.is_general, false) {
        Ok(b) => b,
        Err(_) => return None,
    };
    let unlinked = match boolean_truthy_or(&raw.unlinked, false) {
        Ok(b) => b,
        Err(_) => return None,
    };
    let is_read_only = match boolean_truthy_or(&raw.is_read_only, false) {
        Ok(b) => b,
        Err(_) => return None,
    };
    let is_shared = match boolean_truthy_or(&raw.is_shared, false) {
        Ok(b) => b,
        Err(_) => return None,
    };
    let is_ext_shared = match boolean_truthy_or(&raw.is_ext_shared, false) {
        Ok(b) => b,
        Err(_) => return None,
    };
    let is_org_shared = match boolean_truthy_or(&raw.is_org_shared, false) {
        Ok(b) => b,
        Err(_) => return None,
    };
    let is_pending_ext_shared = match boolean_truthy_or(&raw.is_pending_ext_shared, false) {
        Ok(b) => b,
        Err(_) => return None,
    };
    let is_member = match boolean_truthy_or(&raw.is_member, false) {
        Ok(b) => b,
        Err(_) => return None,
    };
    let is_private = match boolean_truthy_or(&raw.is_private, false) {
        Ok(b) => b,
        Err(_) => return None,
    };
    let is_mpim = match boolean_truthy_or(&raw.is_mpim, false) {
        Ok(b) => b,
        Err(_) => return None,
    };
    let num_members: i32 = match normalize_count(&raw.num_members) {
        Ok(n) => n,
        Err(_) => return None,
    };
    let id = match raw.id {
        Some(RawValue::Text(id)) => id,
        _ => return None,
    };
    let name = match raw.name {
        Some(RawValue::Text(n)) => n,
        None => String::new(),
        Some(_) => return None,
    };
    Some(
        Channel {
            id,
            name,
            is_channel,
            is_group,
            is_im,
            created,
            creator: raw.creator,
            is_archived,
            is_general,
            unlinked,
            name_normalized: raw.name_normalized,
            is_read_only,
            is_shared,
            is_ext_shared,
            is_org_shared,
            pending_shared: raw.pending_shared,
            is_pending_ext_shared,
            is_member,
            is_private,
            is_mpim,
            last_read: raw.last_read,
            previous_names: raw.previous_names,
            num_members,
        },
    )
}

/// Normalizes a batch of raw channel records, dropping each record that
/// cannot be normalized and keeping the rest in order.
pub fn normalize_channels(raws: Vec<RawChannel>) -> (r: Vec<Channel>)
    ensures
        channel_views(r@) == kept_channels(raws@),
        forall|i: int| 0 <= i < r@.len() ==> (#[trigger] r@[i]).wf(),
{
    let ghost all = raws@;
    let mut out: Vec<Channel> = Vec::new();
    assert(channel_views(out@) =~= kept_channels(all.take(0)));
    for raw in it: raws
        invariant
            it.seq() == all,
            channel_views(out@) == kept_channels(all.take(it.index() as int)),
            forall|i: int| 0 <= i < out@.len() ==> (#[trigger] out@[i]).wf(),
    {
        let ghost k = it.index() as int;
        let ghost before = out@;
        assert(all.take(k + 1).drop_last() =~= all.take(k));
        assert(all.take(k + 1).last() == raw);
        match normalize_channel(raw) {
            Some(c) => {
                out.push(c);
                assert(channel_views(out@) =~= channel_views(before).push(c@));
            },
            None => {},
        }
    }
    assert(all.take(all.len() as int) =~= all);
    out
}

} // verus!
