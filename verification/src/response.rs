//! The response envelope: what an upstream call answered, and whether that
//! answer is a payload or a failure.

use vstd::prelude::*;
use crate::channel::{channel_views, kept_channels, normalize_channels, Channel, ChannelView, RawChannel};
use crate::error::{code_error, ErrorKind, ErrorView, SlackError};
use crate::message::{kept_messages, message_views, normalize_messages, Message, MessageView, RawMessage};
use crate::value::{boolean_truthy_or, normalize_error_text, truthy_or, RawValue};

verus! {

/// Metadata of a response: the cursor of the page that follows, empty when
/// there is none.
#[derive(Clone, Debug)]
pub struct SlackResponseMeta {
    pub next_cursor: String,
}

/// An answer of the upstream service, with its success flag and, on failure,
/// its error code.
#[derive(Clone, Debug)]
pub struct SlackResponse {
    pub channels: Option<Vec<Channel>>,
    pub messages: Option<Vec<Message>>,
    pub url: Option<String>,
    pub team: Option<String>,
    pub user: Option<String>,
    pub team_id: Option<String>,
    pub user_id: Option<String>,
    pub bot_id: Option<String>,
    pub response_metadata: Option<SlackResponseMeta>,
    pub error: Option<String>,
    pub ok: bool,
}

/// What a response holds, with every text as a sequence of characters.
pub struct ResponseView {
    pub channels: Option<Seq<ChannelView>>,
    pub messages: Option<Seq<MessageView>>,
    pub url: Option<Seq<char>>,
    pub team: Option<Seq<char>>,
    pub user: Option<Seq<char>>,
    pub team_id: Option<Seq<char>>,
    pub user_id: Option<Seq<char>>,
    pub bot_id: Option<Seq<char>>,
    pub next_cursor: Option<Seq<char>>,
    pub error: Option<Seq<char>>,
    pub ok: bool,
}

impl View for SlackResponse {
    type V = ResponseView;

    open spec fn view(&self) -> ResponseView {
        ResponseView {
            channels: match self.channels {
                Some(c) => Some(channel_views(c@)),
                None => None,
            },
            messages: match self.messages {
                Some(m) => Some(message_views(m@)),
                None => None,
            },
            url: self.url.deep_view(),
            team: self.team.deep_view(),
            user: self.user.deep_view(),
            team_id: self.team_id.deep_view(),
            user_id: self.user_id.deep_view(),
            bot_id: self.bot_id.deep_view(),
            next_cursor: match self.response_metadata {
                Some(m) => Some(m.next_cursor@),
                None => None,
            },
            error: self.error.deep_view(),
            ok: self.ok,
        }
    }
}

/// A response as it arrives: its records and its success flag still raw.
#[derive(Clone, Debug)]
pub struct RawResponse {
    pub channels: Option<Vec<RawChannel>>,
    pub messages: Option<Vec<RawMessage>>,
    pub url: Option<String>,
    pub team: Option<String>,
    pub user: Option<String>,
    pub team_id: Option<String>,
    pub user_id: Option<String>,
    pub bot_id: Option<String>,
    pub response_metadata: Option<SlackResponseMeta>,
    pub error: Option<String>,
    pub ok: Option<RawValue>,
}

/// How one exchange with the upstream service ended.
#[derive(Clone, Debug)]
pub enum Reply {
    /// The transport failed; holds its message.
    Failed(String),
    /// A payload arrived that is no response at all; holds what the parser said.
    Garbled(String),
    /// A response arrived.
    Parsed(RawResponse),
}

/// The view of an outcome: of the response, or of the failure.
pub open spec fn outcome_view(r: Result<SlackResponse, SlackError>) -> Result<
    ResponseView,
    ErrorView,
> {
    match r {
        Ok(resp) => Ok(resp@),
        Err(e) => Err(e@),
    }
}

/// The response that a raw response normalizes to. Records that cannot be
/// normalized are left out of their batch; a success flag that denotes no
/// boolean makes the whole response malformed. An absent flag is false.
pub open spec fn normalized_response(raw: RawResponse) -> Result<ResponseView, ErrorView> {
    match truthy_or(raw.ok, false) {
        Err(e) => Err(
            ErrorView { kind: ErrorKind::MalformedResponse, detail: normalize_error_text(e) },
        ),
        Ok(ok) => Ok(
            ResponseView {
                channels: match raw.channels {
                    Some(c) => Some(kept_channels(c@)),
                    None => None,
                },
                messages: match raw.messages {
                    Some(m) => Some(kept_messages(m@)),
                    None => None,
                },
                url: raw.url.deep_view(),
                team: raw.team.deep_view(),
                user: raw.user.deep_view(),
                team_id: raw.team_id.deep_view(),
                user_id: raw.user_id.deep_view(),
                bot_id: raw.bot_id.deep_view(),
                next_cursor: match raw.response_metadata {
                    Some(m) => Some(m.next_cursor@),
                    None => None,
                },
                error: raw.error.deep_view(),
                ok,
            },
        ),
    }
}

/// What an envelope amounts to: the response itself when its flag is set,
/// else the failure that its error code stands for, a missing code counting
/// as the empty code.
pub open spec fn envelope_outcome(resp: ResponseView) -> Result<ResponseView, ErrorView> {
    if resp.ok {
        Ok(resp)
    } else {
        Err(
            code_error(
                match resp.error {
                    Some(code) => code,
                    None => Seq::empty(),
                },
            ),
        )
    }
}

/// What an exchange amounts to: a transport failure is a client error, a
/// garbled payload a malformed response, and a response what its envelope
/// says once normalized.
pub open spec fn reply_outcome(reply: Reply) -> Result<ResponseView, ErrorView> {
    match reply {
        Reply::Failed(m) => Err(ErrorView { kind: ErrorKind::Client, detail: m@ }),
        Reply::Garbled(m) => Err(ErrorView { kind: ErrorKind::MalformedResponse, detail: m@ }),
        Reply::Parsed(raw) => match normalized_response(raw) {
            Ok(resp) => envelope_outcome(resp),
            Err(e) => Err(e),
        },
    }
}

impl SlackResponse {
    /// Turns the envelope into a result: the response when upstream said
    /// `ok`, else the failure named by its error code.
    pub fn into_result(self) -> (r: Result<SlackResponse, SlackError>)
        ensures
            outcome_view(r) == envelope_outcome(self@),
            self.ok ==> r == Ok::<SlackResponse, SlackError>(self),
    {
        if self.ok {
            Ok(self)
        } else {
            match &self.error {
                Some(code) => Err(SlackError::from_code(code.as_str())),
                None => {
                    proof {
                        reveal_strlit("");
                    }
                    assert(""@ =~= Seq::<char>::empty());
                    Err(SlackError::from_code(""))
                },
            }
        }
    }
}

/// Normalizes a raw response.
pub fn normalize_response(raw: RawResponse) -> (r: Result<SlackResponse, SlackError>)
    ensures
        outcome_view(r) == normalized_response(raw),
{
    let ok = match boolean_truthy_or(&raw.ok, false) {
        Ok(b) => b,
        Err(e) => return Err(SlackError::MalformedResponse(e.message())),
    };
    let channels = match raw.channels {
        Some(c) => Some(normalize_channels(c)),
        None => None,
    };
    let messages = match raw.messages {
        Some(m) => Some(normalize_messages(m)),
        None => None,
    };
    Ok(
        SlackResponse {
            channels,
            messages,
            url: raw.url,
            team: raw.team,
            user: raw.user,
            team_id: raw.team_id,
            user_id: raw.user_id,
            bot_id: raw.bot_id,
            response_metadata: raw.response_metadata,
            error: raw.error,
            ok,
        },
    )
}

/// Makes of one exchange the result that the caller of an upstream method
/// gets: the response, or the failure of the transport, of the parser or of
/// the service.
pub fn receive(reply: Reply) -> (r: Result<SlackResponse, SlackError>)
    ensures
        outcome_view(r) == reply_outcome(reply),
{
    match reply {
        Reply::Failed(m) => Err(SlackError::Client(m)),
        Reply::Garbled(m) => Err(SlackError::MalformedResponse(m)),
        Reply::Parsed(raw) => match normalize_response(raw) {
            Ok(resp) => resp.into_result(),
            Err(e) => Err(e),
        },
    }
}

} // verus!
