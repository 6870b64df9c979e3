//! The end of a run: whether there is a report to post, and whether the
//! secondary channel is told of it.

use vstd::prelude::*;
use crate::bot::ArchiveBot;
use crate::config::texts;
use crate::error::SlackError;
use crate::report::{any_reportable, report_text, secondary_text};
use crate::request::{pairs, post_message_call, post_params, ApiCall};
use crate::response::SlackResponse;
use crate::verdict::ChannelData;

verus! {

/// The verdicts of a run that goes on: all of them, in order, when every
/// inspection came to its verdict, and none at all when any inspection was
/// aborted, for an aborted run posts nothing.
pub fn gather_verdicts(outcomes: Vec<Option<ChannelData>>) -> (r: Option<Vec<ChannelData>>)
    ensures
        r is Some <==> forall|i: int| 0 <= i < outcomes@.len() ==> (#[trigger] outcomes@[i]) is Some,
        r matches Some(verdicts) ==> verdicts@.len() == outcomes@.len() && forall|i: int|
            0 <= i < outcomes@.len() ==> #[trigger] outcomes@[i] == Some(verdicts@[i]),
{
    let ghost all = outcomes@;
    let mut verdicts: Vec<ChannelData> = Vec::new();
    for outcome in it: outcomes
        invariant
            it.seq() == all,
            verdicts@.len() == it.index(),
            forall|i: int| 0 <= i < it.index() ==> #[trigger] all[i] == Some(verdicts@[i]),
    {
        match outcome {
            Some(verdict) => {
                verdicts.push(verdict);
            },
            None => {
                assert(all[it.index() as int] is None);
                return None;
            },
        }
    }
    Some(verdicts)
}

impl ArchiveBot {
    /// The call that posts the report on the verdicts to the notification
    /// channel; none when no channel is worth mentioning, for an empty report
    /// is not posted.
    pub fn report_call(&self, data: &Vec<ChannelData>) -> (r: Option<ApiCall>)
        requires
            any_reportable(data@) ==> self.config.message_headers@.len() > 0,
        ensures
            r is None <==> !any_reportable(data@),
            r matches Some(call) ==> call.method@ == "chat.postMessage"@ && exists|i: int|
                0 <= i < self.config.message_headers@.len() && pairs(call.params@) == post_params(
                    self.config.notification_channel_id@,
                    report_text(data@, #[trigger] texts(self.config.message_headers@)[i]),
                ),
    {
        let message = self.create_message(data);
        if message.as_str().unicode_len() == 0 {
            None
        } else {
            Some(post_message_call(self.config.notification_channel_id.as_str(), message.as_str()))
        }
    }

    /// The call that tells the secondary channel of the report, once the
    /// report's own post was answered: none unless that post succeeded and
    /// the secondary notification is switched on.
    pub fn secondary_call(&self, posted: &Result<SlackResponse, SlackError>) -> (r: Option<ApiCall>)
        requires
            self.config.notify_secondary_channel ==> self.config.secondary_message_headers@.len()
                > 0,
        ensures
            r is Some <==> posted is Ok && self.config.notify_secondary_channel,
            r matches Some(call) ==> call.method@ == "chat.postMessage"@ && exists|i: int|
                0 <= i < self.config.secondary_message_headers@.len() && pairs(call.params@)
                    == post_params(
                    self.config.secondary_notification_channel_id@,
                    secondary_text(
                        #[trigger] texts(self.config.secondary_message_headers@)[i],
                        self.config.notification_channel_id@,
                    ),
                ),
    {
        match posted {
            Ok(_) => {
                if self.config.notify_secondary_channel {
                    let message = self.create_secondary_message();
                    Some(
                        post_message_call(
                            self.config.secondary_notification_channel_id.as_str(),
                            message.as_str(),
                        ),
                    )
                } else {
                    None
                }
            },
            Err(_) => None,
        }
    }
}

} // verus!
