//! The bot: the options of a run together with the decisions of a run.

use vstd::prelude::*;
use crate::config::{texts, Config};
use crate::text::has_prefix;

verus! {

/// Archive bot.
#[derive(Debug)]
pub struct ArchiveBot {
    /// The options of this run.
    pub config: Config<'static>,
}

impl ArchiveBot {
    /// The bot that runs with the given options.
    pub fn new(config: Config<'static>) -> (r: ArchiveBot)
        ensures
            r.config == config,
    {
        ArchiveBot { config }
    }

    /// Whether the channel is ignored based on config.
    pub fn channel_is_ignored(&self, channel_name: &str) -> (r: bool)
        ensures
            r == self.config.ignores(channel_name@),
    {
        let ghost prefixes = texts(self.config.filter_prefixes@);
        let n: usize = self.config.filter_prefixes.len();
        let mut i: usize = 0;
        while i < n
            invariant
                n == self.config.filter_prefixes@.len(),
                prefixes == texts(self.config.filter_prefixes@),
                i <= n,
                forall|j: int| 0 <= j < i ==> !(#[trigger] prefixes[j]).is_prefix_of(channel_name@),
            decreases n - i,
        {
            assert(prefixes[i as int] == self.config.filter_prefixes@[i as int]@);
            if has_prefix(channel_name, self.config.filter_prefixes[i]) {
                return true;
            }
            i = i + 1;
        }
        false
    }
}

impl Default for ArchiveBot {
    /// The bot with the default options.
    fn default() -> (r: ArchiveBot)
        ensures
            r.config.is_default(),
    {
        ArchiveBot { config: Config::default() }
    }
}

} // verus!
