//! The failures of an upstream call: the named error codes, the fallback for
//! codes nobody has named, and what each means for the rest of a run.

use vstd::prelude::*;
use crate::text::same_text;

verus! {

/// What went wrong with one upstream call.
#[derive(Debug, Clone, PartialEq, Eq)]
pub enum SlackError {
    /// `invalid_auth`
    InvalidAuth,
    /// `access_denied`
    AccessDenied,
    /// `auth_timeout_error`
    AuthTimeout,
    /// `auth_verification_error`
    AuthVerification,
    /// `channel_not_found`
    ChannelNotFound,
    /// `not_in_channel`
    NotInChannel,
    /// `is_archived`
    IsArchived,
    /// `invalid_scopes`
    InvalidScopes,
    /// `comment_required`
    CommentRequired,
    /// `ratelimited` and `rate_limited`
    RateLimited,
    /// `invalid_cursor`
    InvalidCursor,
    /// `invalid_limit`
    InvalidLimit,
    /// `invalid_types`
    InvalidType,
    /// `fatal_error`
    Fatal,
    /// `internal_error`
    Internal,
    /// The payload did not have the expected shape; holds what the parser said.
    MalformedResponse(String),
    /// A code outside the taxonomy; holds the code as it came.
    Unknown(String),
    /// The transport failed before any payload arrived; holds its message.
    Client(String),
}

/// The kind of a failure, without the text that some kinds carry.
#[derive(Debug, Clone, Copy, PartialEq, Eq, Structural)]
pub enum ErrorKind {
    InvalidAuth,
    AccessDenied,
    AuthTimeout,
    AuthVerification,
    ChannelNotFound,
    NotInChannel,
    IsArchived,
    InvalidScopes,
    CommentRequired,
    RateLimited,
    InvalidCursor,
    InvalidLimit,
    InvalidType,
    Fatal,
    Internal,
    MalformedResponse,
    Unknown,
    Client,
}

/// What a failure holds: its kind, and the text that it carries, if any.
pub struct ErrorView {
    pub kind: ErrorKind,
    pub detail: Seq<char>,
}

impl View for SlackError {
    type V = ErrorView;

    open spec fn view(&self) -> ErrorView {
        ErrorView { kind: self.kind(), detail: self.detail() }
    }
}

/// The failure that an upstream error code stands for: the named kind, or
/// `Unknown` with the code itself.
pub open spec fn code_error(code: Seq<char>) -> ErrorView {
    ErrorView {
        kind: code_kind(code),
        detail: if code_kind(code) == ErrorKind::Unknown {
            code
        } else {
            Seq::empty()
        },
    }
}

/// The kind that an upstream error code names; `Unknown` for every code
/// outside the taxonomy.
pub open spec fn code_kind(code: Seq<char>) -> ErrorKind {
    if code == "invalid_auth"@ {
        ErrorKind::InvalidAuth
    } else if code == "access_denied"@ {
        ErrorKind::AccessDenied
    } else if code == "auth_timeout_error"@ {
        ErrorKind::AuthTimeout
    } else if code == "auth_verification_error"@ {
        ErrorKind::AuthVerification
    } else if code == "channel_not_found"@ {
        ErrorKind::ChannelNotFound
    } else if code == "not_in_channel"@ {
        ErrorKind::NotInChannel
    } else if code == "is_archived"@ {
        ErrorKind::IsArchived
    } else if code == "invalid_scopes"@ {
        ErrorKind::InvalidScopes
    } else if code == "comment_required"@ {
        ErrorKind::CommentRequired
    } else if code == "ratelimited"@ {
        ErrorKind::RateLimited
    } else if code == "rate_limited"@ {
        ErrorKind::RateLimited
    } else if code == "invalid_cursor"@ {
        ErrorKind::InvalidCursor
    } else if code == "invalid_limit"@ {
        ErrorKind::InvalidLimit
    } else if code == "invalid_types"@ {
        ErrorKind::InvalidType
    } else if code == "fatal_error"@ {
        ErrorKind::Fatal
    } else if code == "internal_error"@ {
        ErrorKind::Internal
    } else {
        ErrorKind::Unknown
    }
}

/// The fixed description of a named kind; empty for the three kinds that
/// carry their own text.
pub open spec fn kind_description(kind: ErrorKind) -> Seq<char> {
    match kind {
        ErrorKind::InvalidAuth => "Invalid authentication token."@,
        ErrorKind::AccessDenied => "You don't have permissions to create Slack-hosted apps or access the specified resource."@,
        ErrorKind::AuthTimeout => "Couldn't receive authorization in the time allowed."@,
        ErrorKind::AuthVerification => "Couldn't verify your authorization."@,
        ErrorKind::ChannelNotFound => "Couldn't find the specified Slack channel."@,
        ErrorKind::NotInChannel => "Cannot post user messages to a channel they are not in."@,
        ErrorKind::IsArchived => "Channel has been archived."@,
        ErrorKind::InvalidScopes => "Some of the provided scopes do not exist."@,
        ErrorKind::CommentRequired => "Your App Manager is requesting a reason to approve installation of this app."@,
        ErrorKind::RateLimited => "Too many calls in succession to create endpoint during a short period of time."@,
        ErrorKind::InvalidCursor => "Value passed for `cursor` was not valid or is no longer valid."@,
        ErrorKind::InvalidLimit => "Value passed for `limit` is not understood."@,
        ErrorKind::InvalidType => "Value passed for `type` could not be used based on the method's capabilities or the permission scopes granted to the used token."@,
        ErrorKind::Fatal => "The server could not complete your operation(s) without encountering a catastrophic error."@,
        ErrorKind::Internal => "The server could not complete your operation(s) without encountering an error, likely due to a transient issue with Slack."@,
        ErrorKind::MalformedResponse => Seq::empty(),
        ErrorKind::Unknown => Seq::empty(),
        ErrorKind::Client => Seq::empty(),
    }
}

impl ErrorView {
    /// What an operator reads of this failure: the fixed description of a named
    /// kind, and the carried text of the others.
    pub open spec fn description(self) -> Seq<char> {
        match self.kind {
            ErrorKind::MalformedResponse => self.detail,
            ErrorKind::Unknown => self.detail,
            ErrorKind::Client => self.detail,
            _ => kind_description(self.kind),
        }
    }

    /// Whether the run cannot go on after this failure.
    pub open spec fn fatal(self) -> bool {
        self.kind == ErrorKind::InvalidAuth
    }
}

impl SlackError {
    /// The kind of this failure.
    pub open spec fn kind(self) -> ErrorKind {
        match self {
            SlackError::InvalidAuth => ErrorKind::InvalidAuth,
            SlackError::AccessDenied => ErrorKind::AccessDenied,
            SlackError::AuthTimeout => ErrorKind::AuthTimeout,
            SlackError::AuthVerification => ErrorKind::AuthVerification,
            SlackError::ChannelNotFound => ErrorKind::ChannelNotFound,
            SlackError::NotInChannel => ErrorKind::NotInChannel,
            SlackError::IsArchived => ErrorKind::IsArchived,
            SlackError::InvalidScopes => ErrorKind::InvalidScopes,
            SlackError::CommentRequired => ErrorKind::CommentRequired,
            SlackError::RateLimited => ErrorKind::RateLimited,
            SlackError::InvalidCursor => ErrorKind::InvalidCursor,
            SlackError::InvalidLimit => ErrorKind::InvalidLimit,
            SlackError::InvalidType => ErrorKind::InvalidType,
            SlackError::Fatal => ErrorKind::Fatal,
            SlackError::Internal => ErrorKind::Internal,
            SlackError::MalformedResponse(_) => ErrorKind::MalformedResponse,
            SlackError::Unknown(_) => ErrorKind::Unknown,
            SlackError::Client(_) => ErrorKind::Client,
        }
    }

    /// The text that this failure carries; empty for the named kinds.
    pub open spec fn detail(self) -> Seq<char> {
        match self {
            SlackError::MalformedResponse(s) => s@,
            SlackError::Unknown(s) => s@,
            SlackError::Client(s) => s@,
            _ => Seq::empty(),
        }
    }

    /// Whether the run cannot go on after this failure: every later call would
    /// fail the same way.
    pub open spec fn fatal(self) -> bool {
        self@.fatal()
    }

    /// What an operator reads of this failure: the fixed description of a named
    /// kind, and the carried text of the others.
    pub open spec fn description_text(self) -> Seq<char> {
        self@.description()
    }

    /// Classifies an upstream error code against the taxonomy. A code outside
    /// it comes back as `Unknown` with the code itself.
    pub fn from_code(code: &str) -> (r: SlackError)
        ensures
            r@ == code_error(code@),
    {
        if same_text(code, "invalid_auth") {
            SlackError::InvalidAuth
        } else if same_text(code, "access_denied") {
            SlackError::AccessDenied
        } else if same_text(code, "auth_timeout_error") {
            SlackError::AuthTimeout
        } else if same_text(code, "auth_verification_error") {
            SlackError::AuthVerification
        } else if same_text(code, "channel_not_found") {
            SlackError::ChannelNotFound
        } else if same_text(code, "not_in_channel") {
            SlackError::NotInChannel
        } else if same_text(code, "is_archived") {
            SlackError::IsArchived
        } else if same_text(code, "invalid_scopes") {
            SlackError::InvalidScopes
        } else if same_text(code, "comment_required") {
            SlackError::CommentRequired
        } else if same_text(code, "ratelimited") {
            SlackError::RateLimited
        } else if same_text(code, "rate_limited") {
            SlackError::RateLimited
        } else if same_text(code, "invalid_cursor") {
            SlackError::InvalidCursor
        } else if same_text(code, "invalid_limit") {
            SlackError::InvalidLimit
        } else if same_text(code, "invalid_types") {
            SlackError::InvalidType
        } else if same_text(code, "fatal_error") {
            SlackError::Fatal
        } else if same_text(code, "internal_error") {
            SlackError::Internal
        } else {
            SlackError::Unknown(String::from_str(code))
        }
    }

    /// The kind of this failure.
    pub fn error_kind(&self) -> (r: ErrorKind)
        ensures
            r == self.kind(),
    {
        match self {
            SlackError::InvalidAuth => ErrorKind::InvalidAuth,
            SlackError::AccessDenied => ErrorKind::AccessDenied,
            SlackError::AuthTimeout => ErrorKind::AuthTimeout,
            SlackError::AuthVerification => ErrorKind::AuthVerification,
            SlackError::ChannelNotFound => ErrorKind::ChannelNotFound,
            SlackError::NotInChannel => ErrorKind::NotInChannel,
            SlackError::IsArchived => ErrorKind::IsArchived,
            SlackError::InvalidScopes => ErrorKind::InvalidScopes,
            SlackError::CommentRequired => ErrorKind::CommentRequired,
            SlackError::RateLimited => ErrorKind::RateLimited,
            SlackError::InvalidCursor => ErrorKind::InvalidCursor,
            SlackError::InvalidLimit => ErrorKind::InvalidLimit,
            SlackError::InvalidType => ErrorKind::InvalidType,
            SlackError::Fatal => ErrorKind::Fatal,
            SlackError::Internal => ErrorKind::Internal,
            SlackError::MalformedResponse(_) => ErrorKind::MalformedResponse,
            SlackError::Unknown(_) => ErrorKind::Unknown,
            SlackError::Client(_) => ErrorKind::Client,
        }
    }

    /// The operator-facing description of this failure.
    pub fn description(&self) -> (r: String)
        ensures
            r@ == self.description_text(),
    {
        let d: &str = match self {
            SlackError::InvalidAuth => "Invalid authentication token.",
            SlackError::AccessDenied => "You don't have permissions to create Slack-hosted apps or access the specified resource.",
            SlackError::AuthTimeout => "Couldn't receive authorization in the time allowed.",
            SlackError::AuthVerification => "Couldn't verify your authorization.",
            SlackError::ChannelNotFound => "Couldn't find the specified Slack channel.",
            SlackError::NotInChannel => "Cannot post user messages to a channel they are not in.",
            SlackError::IsArchived => "Channel has been archived.",
            SlackError::InvalidScopes => "Some of the provided scopes do not exist.",
            SlackError::CommentRequired => "Your App Manager is requesting a reason to approve installation of this app.",
            SlackError::RateLimited => "Too many calls in succession to create endpoint during a short period of time.",
            SlackError::InvalidCursor => "Value passed for `cursor` was not valid or is no longer valid.",
            SlackError::InvalidLimit => "Value passed for `limit` is not understood.",
            SlackError::InvalidType => "Value passed for `type` could not be used based on the method's capabilities or the permission scopes granted to the used token.",
            SlackError::Fatal => "The server could not complete your operation(s) without encountering a catastrophic error.",
            SlackError::Internal => "The server could not complete your operation(s) without encountering an error, likely due to a transient issue with Slack.",
            SlackError::MalformedResponse(s) => s.as_str(),
            SlackError::Unknown(s) => s.as_str(),
            SlackError::Client(s) => s.as_str(),
        };
        String::from_str(d)
    }

    /// Whether the run must stop without posting anything.
    pub fn is_fatal(&self) -> (r: bool)
        ensures
            r == self.fatal(),
    {
        match self {
            SlackError::InvalidAuth => true,
            _ => false,
        }
    }
}

} // verus!
