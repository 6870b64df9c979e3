//! The options of a run.

use vstd::prelude::*;

verus! {

/// How many messages of a channel's history are scanned for recent activity,
/// unless the configuration says otherwise.
pub const MESSAGE_HISTORY_LENGTH: u16 = 10;

/// Config for Archive Bot.
#[derive(Debug)]
pub struct Config<'cfg> {
    /// Slack bot token.
    pub token: String,
    /// Channel id to send notifications.
    pub notification_channel_id: String,
    /// Vector of channel prefixes to filter out of results.
    pub filter_prefixes: Vec<&'cfg str>,
    /// Vector of messages to send (one at random) at beginning of updates.
    pub message_headers: Vec<&'cfg str>,
    /// How long until a channel is stale (in seconds).
    pub stale_after: u32,
    /// The threshold <= channels are considered "small".
    pub small_channel_threshold: u16,
    /// Whether to notify a secondary channel of updates (such as #general).
    pub notify_secondary_channel: bool,
    /// Secondary channel id.
    pub secondary_notification_channel_id: String,
    /// Secondary notification message options.
    pub secondary_message_headers: Vec<&'cfg str>,
    /// How many messages of a channel's history are scanned for relevance.
    pub history_lookback: u16,
}

/// The texts of a list of string slices.
pub open spec fn texts(v: Seq<&str>) -> Seq<Seq<char>> {
    v.map_values(|s: &str| s@)
}

/// Whether a name begins with one of the prefixes.
pub open spec fn matches_any_prefix(name: Seq<char>, prefixes: Seq<Seq<char>>) -> bool {
    exists|i: int| 0 <= i < prefixes.len() && (#[trigger] prefixes[i]).is_prefix_of(name)
}

impl<'cfg> Config<'cfg> {
    /// Whether a channel of this name is excluded from all activity checks
    /// and from the report: its name begins with one of the ignore prefixes,
    /// compared character for character.
    pub open spec fn ignores(self, name: Seq<char>) -> bool {
        matches_any_prefix(name, texts(self.filter_prefixes@))
    }

    /// Whether every option has its default: no token and no channels yet, no
    /// ignore prefixes, the three stock headers of each kind, six weeks until
    /// a channel is stale, three members or fewer for a small one, no
    /// secondary notification, and the stock history depth.
    pub open spec fn is_default(self) -> bool {
        &&& self.token@ == Seq::<char>::empty()
        &&& self.notification_channel_id@ == Seq::<char>::empty()
        &&& self.filter_prefixes@.len() == 0
        &&& texts(self.message_headers@) == seq![
            "Hey, you've got some cleaning up to do!"@,
            "Hey boss, take a look at these, will ya?"@,
            "I don't know what this is, or what to do with it:"@,
        ]
        &&& self.stale_after == 3_628_800
        &&& self.small_channel_threshold == 3
        &&& !self.notify_secondary_channel
        &&& self.secondary_notification_channel_id@ == Seq::<char>::empty()
        &&& texts(self.secondary_message_headers@) == seq![
            "Hey folks! I, uh... made a list for you. Of channels. That you should archive. Maybe."@,
            "Hey everyone! If you want the satisfaction of crossing a task off your list, I have one!"@,
            "BEEP, BOOP! Archival update: List generated. End of program."@,
        ]
        &&& self.history_lookback == MESSAGE_HISTORY_LENGTH
    }
}

impl<'cfg> Default for Config<'cfg> {
    /// To append to configuration to fill blank values with defaults.
    fn default() -> (r: Config<'cfg>)
        ensures
            r.is_default(),
    {
        let mut message_headers: Vec<&'cfg str> = Vec::new();
        message_headers.push("Hey, you've got some cleaning up to do!");
        message_headers.push("Hey boss, take a look at these, will ya?");
        message_headers.push("I don't know what this is, or what to do with it:");
        let mut secondary_message_headers: Vec<&'cfg str> = Vec::new();
        secondary_message_headers.push(
            "Hey folks! I, uh... made a list for you. Of channels. That you should archive. Maybe.",
        );
        secondary_message_headers.push(
            "Hey everyone! If you want the satisfaction of crossing a task off your list, I have one!",
        );
        secondary_message_headers.push(
            "BEEP, BOOP! Archival update: List generated. End of program.",
        );
        let r = Config {
            token: String::new(),
            notification_channel_id: String::new(),
            filter_prefixes: Vec::new(),
            message_headers,
            stale_after: 6 * 7 * 24 * 60 * 60,
            small_channel_threshold: 3,
            notify_secondary_channel: false,
            secondary_notification_channel_id: String::new(),
            secondary_message_headers,
            history_lookback: MESSAGE_HISTORY_LENGTH,
        };
        assert(texts(r.message_headers@) =~= seq![
            "Hey, you've got some cleaning up to do!"@,
            "Hey boss, take a look at these, will ya?"@,
            "I don't know what this is, or what to do with it:"@,
        ]);
        assert(texts(r.secondary_message_headers@) =~= seq![
            "Hey folks! I, uh... made a list for you. Of channels. That you should archive. Maybe."@,
            "Hey everyone! If you want the satisfaction of crossing a task off your list, I have one!"@,
            "BEEP, BOOP! Archival update: List generated. End of program."@,
        ]);
        r
    }
}

} // verus!
