//! The calls that a run makes upstream: which method, with which parameters.

use vstd::prelude::*;
use crate::bot::ArchiveBot;
use crate::text::{decimal_text, push_decimal};

verus! {

/// One call of an upstream method, before the token is added.
#[derive(Debug, Clone, PartialEq, Eq)]
pub struct ApiCall {
    /// The method's name, as in `conversations.list`.
    pub method: String,
    /// The form parameters, each a name and a value, in order.
    pub params: Vec<(String, String)>,
}

/// The texts of a list of parameters.
pub open spec fn pairs(v: Seq<(String, String)>) -> Seq<(Seq<char>, Seq<char>)> {
    v.map_values(|p: (String, String)| (p.0@, p.1@))
}

/// The page request at a cursor: archived channels left out, members kept,
/// a thousand channels to the page, public and private channels alike; the
/// cursor goes along unless it is empty.
pub open spec fn list_params(cursor: Seq<char>) -> Seq<(Seq<char>, Seq<char>)> {
    let fixed = seq![
        ("exclude_archived"@, "1"@),
        ("exclude_members"@, "0"@),
        ("limit"@, "1000"@),
        ("types"@, "public_channel,private_channel"@),
    ];
    if cursor.len() == 0 {
        fixed
    } else {
        fixed.push(("cursor"@, cursor))
    }
}

/// The history request for a channel: the channel, and how many messages.
pub open spec fn history_params(channel_id: Seq<char>, limit: u16) -> Seq<(Seq<char>, Seq<char>)> {
    seq![("channel"@, channel_id), ("limit"@, decimal_text(limit as int))]
}

/// The request to join a channel.
pub open spec fn join_params(channel_id: Seq<char>) -> Seq<(Seq<char>, Seq<char>)> {
    seq![("channel"@, channel_id)]
}

/// The request to post a text to a channel, with markup switched on.
pub open spec fn post_params(channel_id: Seq<char>, message: Seq<char>) -> Seq<
    (Seq<char>, Seq<char>),
> {
    seq![("channel"@, channel_id), ("text"@, message), ("mrkdwn"@, "1"@)]
}

/// The address of an upstream method.
pub open spec fn method_url(method: Seq<char>) -> Seq<char> {
    "https://slack.com/api/"@ + method
}

fn pair(name: &str, value: &str) -> (r: (String, String))
    ensures
        r.0@ == name@,
        r.1@ == value@,
{
    (String::from_str(name), String::from_str(value))
}

/// The call that asks for the page of channels at a cursor.
pub fn list_channels_call(cursor: &str) -> (r: ApiCall)
    ensures
        r.method@ == "conversations.list"@,
        pairs(r.params@) == list_params(cursor@),
{
    let mut params: Vec<(String, String)> = Vec::new();
    params.push(pair("exclude_archived", "1"));
    params.push(pair("exclude_members", "0"));
    params.push(pair("limit", "1000"));
    params.push(pair("types", "public_channel,private_channel"));
    if cursor.unicode_len() != 0 {
        params.push(pair("cursor", cursor));
    }
    assert(pairs(params@) =~= list_params(cursor@));
    ApiCall { method: String::from_str("conversations.list"), params }
}

/// The call that asks for the newest `limit` messages of a channel.
pub fn history_call(channel_id: &str, limit: u16) -> (r: ApiCall)
    ensures
        r.method@ == "conversations.history"@,
        pairs(r.params@) == history_params(channel_id@, limit),
{
    let mut count = String::new();
    push_decimal(&mut count, limit as i64);
    assert(count@ =~= decimal_text(limit as int));
    let mut params: Vec<(String, String)> = Vec::new();
    params.push(pair("channel", channel_id));
    params.push((String::from_str("limit"), count));
    assert(pairs(params@) =~= history_params(channel_id@, limit));
    ApiCall { method: String::from_str("conversations.history"), params }
}

/// The call that makes the bot join a channel.
pub fn join_call(channel_id: &str) -> (r: ApiCall)
    ensures
        r.method@ == "conversations.join"@,
        pairs(r.params@) == join_params(channel_id@),
{
    let mut params: Vec<(String, String)> = Vec::new();
    params.push(pair("channel", channel_id));
    assert(pairs(params@) =~= join_params(channel_id@));
    ApiCall { method: String::from_str("conversations.join"), params }
}

/// The call that posts a message to a channel.
pub fn post_message_call(channel_id: &str, message: &str) -> (r: ApiCall)
    ensures
        r.method@ == "chat.postMessage"@,
        pairs(r.params@) == post_params(channel_id@, message@),
{
    let mut params: Vec<(String, String)> = Vec::new();
    params.push(pair("channel", channel_id));
    params.push(pair("text", message));
    params.push(pair("mrkdwn", "1"));
    assert(pairs(params@) =~= post_params(channel_id@, message@));
    ApiCall { method: String::from_str("chat.postMessage"), params }
}

/// The address to send a call of the method to.
pub fn api_url(method: &str) -> (r: String)
    ensures
        r@ == method_url(method@),
{
    let mut url = String::from_str("https://slack.com/api/");
    url.append(method);
    url
}

impl ArchiveBot {
    /// The form to send for a call: the bot's token first, then the call's
    /// own parameters in their order.
    pub fn form(&self, call: ApiCall) -> (r: Vec<(String, String)>)
        ensures
            pairs(r@) == seq![("token"@, self.config.token@)] + pairs(call.params@),
    {
        let mut p: Vec<(String, String)> = Vec::new();
        p.push(pair("token", self.config.token.as_str()));
        let mut params = call.params;
        p.append(&mut params);
        assert(pairs(p@) =~= seq![("token"@, self.config.token@)] + pairs(call.params@));
        p
    }
}

} // verus!
