//! The inspection of one channel: whether to join it, whether to read its
//! history, and which message of that history counts as its last activity.
//!
//! The calls themselves are made elsewhere. Each decision here takes what a
//! call answered and says what comes next.

use vstd::prelude::*;
use crate::bot::ArchiveBot;
use crate::channel::{Channel, ChannelView};
use crate::clock::unix_now;
use crate::config::Config;
use crate::error::{ErrorView, SlackError};
use crate::message::{message_views, Message, MessageView};
use crate::request::{history_call, history_params, join_call, join_params, pairs, ApiCall};
use crate::response::{outcome_view, ResponseView, SlackResponse};
use crate::verdict::{classified, ChannelData, ChannelDataView};

verus! {

/// What an inspection has to do next.
#[derive(Debug, Clone, Copy, PartialEq, Eq, Structural)]
pub enum NextStep {
    /// Ask upstream to let the bot join the channel.
    Join,
    /// Ask upstream for the channel's recent history.
    FetchHistory,
    /// Nothing more to ask: compute the verdict.
    Classify,
    /// Give up the whole run: upstream refuses the bot's credentials.
    Abort,
}

/// How far the inspection of one channel has come.
#[derive(Debug)]
pub struct Inspection {
    /// Whether the channel's name matches an ignore prefix.
    pub is_ignored: bool,
    /// Whether the bot counts as a member, as far as is known.
    pub is_member: bool,
    /// The recent history, newest message first; empty until it was read.
    pub history: Vec<Message>,
    /// What to do next.
    pub next: NextStep,
}

/// What an inspection holds, with its history as a sequence of views.
pub struct InspectionView {
    pub is_ignored: bool,
    pub is_member: bool,
    pub history: Seq<MessageView>,
    pub next: NextStep,
}

impl View for Inspection {
    type V = InspectionView;

    open spec fn view(&self) -> InspectionView {
        InspectionView {
            is_ignored: self.is_ignored,
            is_member: self.is_member,
            history: message_views(self.history@),
            next: self.next,
        }
    }
}

/// Whether the bot should try to join: it is no member yet, and the channel
/// is open to it.
pub open spec fn joinable(channel: ChannelView) -> bool {
    !channel.is_member && !channel.is_private
}

/// Where an inspection starts.
///
/// An ignored channel is neither joined nor read: its reported membership
/// stands and the verdict is next. Any other channel is joined first where
/// that is needed and possible, read where the bot is a member already, and
/// goes straight to its verdict where it is neither.
pub open spec fn begun(config: Config, channel: ChannelView) -> InspectionView {
    let ignored = config.ignores(channel.name);
    InspectionView {
        is_ignored: ignored,
        is_member: channel.is_member,
        history: Seq::empty(),
        next: if ignored {
            NextStep::Classify
        } else if joinable(channel) {
            NextStep::Join
        } else if channel.is_member {
            NextStep::FetchHistory
        } else {
            NextStep::Classify
        },
    }
}

/// Where an inspection stands once the attempt to join was answered.
///
/// Success makes the bot a member, and the history is next. A refusal of the
/// bot's credentials ends the run. Any other failure leaves the reported
/// membership as it was. An answer that nobody waited for changes nothing.
pub open spec fn after_join(
    state: InspectionView,
    channel: ChannelView,
    outcome: Result<ResponseView, ErrorView>,
) -> InspectionView {
    if state.next != NextStep::Join {
        state
    } else {
        match outcome {
            Ok(_) => InspectionView { is_member: true, next: NextStep::FetchHistory, ..state },
            Err(e) => if e.fatal() {
                InspectionView { next: NextStep::Abort, ..state }
            } else {
                InspectionView {
                    is_member: channel.is_member,
                    next: if channel.is_member && !state.is_ignored {
                        NextStep::FetchHistory
                    } else {
                        NextStep::Classify
                    },
                    ..state
                }
            },
        }
    }
}

/// Where an inspection stands once the call it waited for was answered.
pub open spec fn after_answer(
    state: InspectionView,
    channel: ChannelView,
    outcome: Result<ResponseView, ErrorView>,
) -> InspectionView {
    if state.next == NextStep::Join {
        after_join(state, channel, outcome)
    } else {
        after_history(state, outcome)
    }
}

/// The messages that a history call brought: those of a successful response
/// that holds any, and none otherwise.
pub open spec fn history_of(outcome: Result<ResponseView, ErrorView>) -> Seq<MessageView> {
    match outcome {
        Ok(resp) => match resp.messages {
            Some(m) => m,
            None => Seq::empty(),
        },
        Err(_) => Seq::empty(),
    }
}

/// Where an inspection stands once the history call was answered.
///
/// A refusal of the bot's credentials ends the run. After every other answer
/// the channel is classified: on the messages of a successful answer, and on
/// no message after any failure, the bot's not being in the channel included.
/// An answer that nobody waited for changes nothing.
pub open spec fn after_history(
    state: InspectionView,
    outcome: Result<ResponseView, ErrorView>,
) -> InspectionView {
    if state.next != NextStep::FetchHistory {
        state
    } else if outcome is Err && outcome->Err_0.fatal() {
        InspectionView { next: NextStep::Abort, ..state }
    } else {
        InspectionView { history: history_of(outcome), next: NextStep::Classify, ..state }
    }
}

/// Where the first relevant message stands in a history: the length of the
/// history when it holds none.
pub open spec fn relevant_position(h: Seq<MessageView>) -> int
    decreases h.len(),
{
    if h.len() == 0 || !h[0].ignored() {
        0
    } else {
        1 + relevant_position(h.skip(1))
    }
}

/// The message that stands for a channel's last activity: the newest
/// relevant one; the newest of all where none is relevant; none where the
/// history is empty.
pub open spec fn selected(h: Seq<MessageView>) -> Option<MessageView> {
    if h.len() == 0 {
        None
    } else if relevant_position(h) < h.len() {
        Some(h[relevant_position(h)])
    } else {
        Some(h[0])
    }
}

/// While every message met is irrelevant, the position counts on from where
/// the scan is.
pub proof fn lemma_relevant_position_scan(h: Seq<MessageView>, i: int)
    requires
        0 <= i <= h.len(),
        forall|j: int| 0 <= j < i ==> (#[trigger] h[j]).ignored(),
    ensures
        relevant_position(h) == i + relevant_position(h.skip(i)),
    decreases i,
{
    if i == 0 {
        assert(h.skip(0) =~= h);
    } else {
        let rest = h.skip(1);
        assert(h[0].ignored());
        assert forall|j: int| 0 <= j < i - 1 implies (#[trigger] rest[j]).ignored() by {
            assert(rest[j] == h[j + 1]);
        }
        lemma_relevant_position_scan(rest, i - 1);
        assert(rest.skip(i - 1) =~= h.skip(i));
    }
}

/// Scanning is a function of the history alone, and scanning what a scan
/// selected selects it again.
pub proof fn lemma_scan_idempotent(h: Seq<MessageView>, g: Seq<MessageView>)
    ensures
        h == g ==> selected(h) == selected(g),
        selected(h) matches Some(m) ==> selected(seq![m]) == Some(m),
        selected(h) is None <==> h.len() == 0,
{
    match selected(h) {
        Some(m) => {
            let one = seq![m];
            assert(one.len() == 1 && one[0] == m);
            assert(one.skip(1).len() == 0);
            assert(relevant_position(one.skip(1)) == 0);
            assert(relevant_position(one) <= 1);
        },
        None => {},
    }
}

/// Get the last message of a history that counts as activity: the first
/// relevant message from the newest on, else the newest message of all.
pub fn get_last_message(history: &Vec<Message>) -> (r: Option<&Message>)
    ensures
        match r {
            Some(m) => selected(message_views(history@)) == Some(m@),
            None => selected(message_views(history@)) is None,
        },
{
    let ghost h = message_views(history@);
    let n: usize = history.len();
    if n == 0 {
        return None;
    }
    let mut i: usize = 0;
    while i < n
        invariant
            n == history@.len(),
            h == message_views(history@),
            i <= n,
            forall|j: int| 0 <= j < i ==> (#[trigger] h[j]).ignored(),
        decreases n - i,
    {
        if !history[i].ignore_type() {
            proof {
                lemma_relevant_position_scan(h, i as int);
                assert(h.skip(i as int)[0] == h[i as int]);
            }
            return Some(&history[i]);
        }
        i = i + 1;
    }
    proof {
        lemma_relevant_position_scan(h, n as int);
    }
    Some(&history[0])
}

/// The messages that a history call brought, if it brought any: those of a
/// successful response. A failure brings none, whatever it was.
pub fn history_messages(outcome: Result<SlackResponse, SlackError>) -> (r: Option<Vec<Message>>)
    ensures
        r == match outcome {
            Ok(list) => list.messages,
            Err(_) => None,
        },
        match r {
            Some(m) => message_views(m@) == history_of(outcome_view(outcome)),
            None => history_of(outcome_view(outcome)).len() == 0,
        },
{
    match outcome {
        Ok(list) => list.messages,
        Err(_) => None,
    }
}

impl Inspection {
    /// Takes the answer to the attempt to join into the inspection.
    pub fn joined(self, channel: &Channel, outcome: &Result<SlackResponse, SlackError>) -> (r:
        Inspection)
        ensures
            r@ == after_join(self@, channel@, outcome_view(*outcome)),
    {
        match self.next {
            NextStep::Join => {},
            _ => {
                return self;
            },
        }
        match outcome {
            Ok(_) => Inspection {
                is_ignored: self.is_ignored,
                is_member: true,
                history: self.history,
                next: NextStep::FetchHistory,
            },
            Err(e) => {
                if e.is_fatal() {
                    Inspection {
                        is_ignored: self.is_ignored,
                        is_member: self.is_member,
                        history: self.history,
                        next: NextStep::Abort,
                    }
                } else {
                    let is_member = ArchiveBot::maybe_join_channel(channel, outcome);
                    Inspection {
                        is_ignored: self.is_ignored,
                        is_member,
                        history: self.history,
                        next: if is_member && !self.is_ignored {
                            NextStep::FetchHistory
                        } else {
                            NextStep::Classify
                        },
                    }
                }
            },
        }
    }

    /// Takes the answer to the call that the inspection waited for into the
    /// inspection, whichever call that was.
    pub fn answered(self, channel: &Channel, outcome: Result<SlackResponse, SlackError>) -> (r:
        Inspection)
        ensures
            r@ == after_answer(self@, channel@, outcome_view(outcome)),
    {
        match self.next {
            NextStep::Join => self.joined(channel, &outcome),
            _ => self.fetched(outcome),
        }
    }

    /// Takes the answer to the history call into the inspection.
    pub fn fetched(self, outcome: Result<SlackResponse, SlackError>) -> (r: Inspection)
        ensures
            r@ == after_history(self@, outcome_view(outcome)),
    {
        match self.next {
            NextStep::FetchHistory => {},
            _ => {
                return self;
            },
        }
        let fatal = match &outcome {
            Ok(_) => false,
            Err(e) => e.is_fatal(),
        };
        if fatal {
            return Inspection {
                is_ignored: self.is_ignored,
                is_member: self.is_member,
                history: self.history,
                next: NextStep::Abort,
            };
        }
        let history = match history_messages(outcome) {
            Some(m) => m,
            None => Vec::new(),
        };
        let r = Inspection {
            is_ignored: self.is_ignored,
            is_member: self.is_member,
            history,
            next: NextStep::Classify,
        };
        assert(r@.history =~= history_of(outcome_view(outcome)));
        r
    }
}

impl ArchiveBot {
    /// Starts the inspection of a channel.
    pub fn begin_inspection(&self, channel: &Channel) -> (r: Inspection)
        ensures
            r@ == begun(self.config, channel@),
    {
        let is_ignored = self.channel_is_ignored(channel.name.as_str());
        let next = if is_ignored {
            NextStep::Classify
        } else if !channel.is_member && !channel.is_private {
            NextStep::Join
        } else if channel.is_member {
            NextStep::FetchHistory
        } else {
            NextStep::Classify
        };
        let r = Inspection { is_ignored, is_member: channel.is_member, history: Vec::new(), next };
        assert(r@.history =~= Seq::<MessageView>::empty());
        r
    }

    /// Whether the bot is a member of the channel once the attempt to join
    /// it was answered: by its success, else as upstream reported before.
    pub fn maybe_join_channel(channel: &Channel, outcome: &Result<SlackResponse, SlackError>) -> (r:
        bool)
        ensures
            r == (outcome is Ok || channel.is_member),
    {
        match outcome {
            Ok(_) => true,
            Err(_) => channel.is_member,
        }
    }

    /// The call that the inspection of a channel waits for: to join it, or to
    /// read as much of its history as the options say. None once nothing is
    /// left to ask.
    pub fn inspection_call(&self, channel: &Channel, inspection: &Inspection) -> (r: Option<ApiCall>)
        ensures
            match inspection.next {
                NextStep::Join => r is Some && r.unwrap().method@ == "conversations.join"@
                    && pairs(r.unwrap().params@) == join_params(channel.id@),
                NextStep::FetchHistory => r is Some && r.unwrap().method@
                    == "conversations.history"@ && pairs(r.unwrap().params@) == history_params(
                    channel.id@,
                    self.config.history_lookback,
                ),
                _ => r is None,
            },
    {
        match inspection.next {
            NextStep::Join => Some(join_call(channel.id.as_str())),
            NextStep::FetchHistory => Some(
                history_call(channel.id.as_str(), self.config.history_lookback),
            ),
            _ => None,
        }
    }

    /// Computes the verdict on a channel at the time `now` from what its
    /// inspection found.
    pub fn conclude(&self, channel: &Channel, inspection: &Inspection, now: i64) -> (r: ChannelData)
        requires
            channel.wf(),
        ensures
            r@ == concluded(self.config, channel@, inspection@, now as int),
    {
        self.classify(channel, inspection.is_member, get_last_message(&inspection.history), now)
    }

    /// The verdict of an inspection that is through, at the time of the
    /// call: none where the inspection was aborted or still waits for a call.
    pub fn finish_inspection(&self, channel: &Channel, inspection: &Inspection) -> (r: Option<
        ChannelData,
    >)
        requires
            channel.wf(),
        ensures
            r is Some <==> inspection.next == NextStep::Classify,
            r matches Some(verdict) ==> exists|now: i64|
                verdict@ == #[trigger] concluded(self.config, channel@, inspection@, now as int),
    {
        match inspection.next {
            NextStep::Classify => Some(self.parse_channel(channel, inspection)),
            _ => None,
        }
    }

    /// Parse a specific channel for relevant data, once its inspection is
    /// through: the verdict at the time of the call.
    pub fn parse_channel(&self, channel: &Channel, inspection: &Inspection) -> (r: ChannelData)
        requires
            channel.wf(),
        ensures
            exists|now: i64|
                r@ == #[trigger] concluded(self.config, channel@, inspection@, now as int),
    {
        let now: i64 = unix_now();
        self.conclude(channel, inspection, now)
    }
}

/// The verdict that an inspection leads to at the time `now`.
pub open spec fn concluded(
    config: Config,
    channel: ChannelView,
    inspection: InspectionView,
    now: int,
) -> ChannelDataView {
    classified(config, channel, inspection.is_member, selected(inspection.history), now)
}

/// An ignored channel is never joined and never read, whatever upstream
/// answers, and its verdict is never worth mentioning, however stale or
/// small it is.
pub proof fn lemma_ignore_short_circuit(
    config: Config,
    channel: ChannelView,
    join_outcome: Result<ResponseView, ErrorView>,
    history_outcome: Result<ResponseView, ErrorView>,
    is_member: bool,
    last: Option<MessageView>,
    now: int,
)
    requires
        config.ignores(channel.name),
    ensures
        begun(config, channel).next == NextStep::Classify,
        begun(config, channel).is_member == channel.is_member,
        begun(config, channel).history.len() == 0,
        after_join(begun(config, channel), channel, join_outcome) == begun(config, channel),
        after_history(begun(config, channel), history_outcome) == begun(config, channel),
        after_answer(begun(config, channel), channel, join_outcome) == begun(config, channel),
        classified(config, channel, is_member, last, now).is_ignored,
        !classified(config, channel, is_member, last, now).reportable(),
{
}

} // verus!
