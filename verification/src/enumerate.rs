//! The enumeration of all channels, page by page.
//!
//! The page requests are made elsewhere. The enumeration takes each answer,
//! adds its channels to those gathered so far, and says whether another page
//! is to be asked for.

use vstd::prelude::*;
use crate::channel::{channel_views, Channel, ChannelView};
use crate::error::{ErrorView, SlackError};
use crate::request::{list_channels_call, list_params, pairs, ApiCall};
use crate::response::{outcome_view, ResponseView, SlackResponse};

verus! {

/// Whether an enumeration goes on.
#[derive(Debug, Clone, Copy, PartialEq, Eq, Structural)]
pub enum Progress {
    /// Another page is to be asked for, at the enumeration's cursor.
    Fetching,
    /// The channels gathered are the result.
    Finished,
    /// The run cannot go on: the first page failed, or upstream refuses the
    /// bot's credentials.
    Aborted,
}

/// An enumeration under way.
#[derive(Debug)]
pub struct Enumeration {
    /// The channels gathered so far, no two with the same identifier.
    pub channels: Vec<Channel>,
    /// The cursor to ask the next page at; empty for the first page.
    pub cursor: String,
    /// Whether no page has been answered yet.
    pub first_page: bool,
    /// Whether the enumeration goes on.
    pub progress: Progress,
}

/// What an enumeration holds, with its channels as a sequence of views.
pub struct EnumerationView {
    pub channels: Seq<ChannelView>,
    pub cursor: Seq<char>,
    pub first_page: bool,
    pub progress: Progress,
}

impl View for Enumeration {
    type V = EnumerationView;

    open spec fn view(&self) -> EnumerationView {
        EnumerationView {
            channels: channel_views(self.channels@),
            cursor: self.cursor@,
            first_page: self.first_page,
            progress: self.progress,
        }
    }
}

/// Whether no two channels share an identifier.
pub open spec fn distinct_ids(s: Seq<ChannelView>) -> bool {
    forall|i: int, j: int| 0 <= i < j < s.len() ==> (#[trigger] s[i]).id != (#[trigger] s[j]).id
}

/// Where the first channel with the identifier stands: the length of the
/// sequence when it holds none.
pub open spec fn id_position(s: Seq<ChannelView>, id: Seq<char>) -> int
    decreases s.len(),
{
    if s.len() == 0 || s[0].id == id {
        0
    } else {
        1 + id_position(s.skip(1), id)
    }
}

/// The channels after one more was seen: it takes the place of the channel
/// with its identifier where there is one, and goes to the end otherwise.
pub open spec fn merged_one(s: Seq<ChannelView>, c: ChannelView) -> Seq<ChannelView> {
    let p = id_position(s, c.id);
    if p < s.len() {
        s.update(p, c)
    } else {
        s.push(c)
    }
}

/// The channels after a page was seen, channel by channel in its order: of
/// two records with one identifier the later one stays.
pub open spec fn merged(s: Seq<ChannelView>, page: Seq<ChannelView>) -> Seq<ChannelView>
    decreases page.len(),
{
    if page.len() == 0 {
        s
    } else {
        merged_one(merged(s, page.drop_last()), page.last())
    }
}

/// The channels that a page request brought: those of a successful response
/// that holds any, and none otherwise.
pub open spec fn page_channels(outcome: Result<ResponseView, ErrorView>) -> Seq<ChannelView> {
    match outcome {
        Ok(resp) => match resp.channels {
            Some(c) => c,
            None => Seq::empty(),
        },
        Err(_) => Seq::empty(),
    }
}

/// The cursor that a page request brought: that of a successful response
/// with channels and metadata, and the empty cursor otherwise.
pub open spec fn page_cursor(outcome: Result<ResponseView, ErrorView>) -> Seq<char> {
    match outcome {
        Ok(resp) => match (resp.channels, resp.next_cursor) {
            (Some(_), Some(cursor)) => cursor,
            _ => Seq::empty(),
        },
        Err(_) => Seq::empty(),
    }
}

/// An enumeration before its first page.
pub open spec fn started() -> EnumerationView {
    EnumerationView {
        channels: Seq::empty(),
        cursor: Seq::empty(),
        first_page: true,
        progress: Progress::Fetching,
    }
}

/// Where an enumeration stands once a page request was answered.
///
/// A page adds its channels and goes on at its cursor, or finishes when that
/// is empty. A failure ends the enumeration with what was gathered; it aborts
/// the run when it is the first page that failed, or when upstream refuses
/// the bot's credentials. An answer that nobody waited for changes nothing.
pub open spec fn after_page(
    state: EnumerationView,
    outcome: Result<ResponseView, ErrorView>,
) -> EnumerationView {
    if state.progress != Progress::Fetching {
        state
    } else {
        match outcome {
            Err(e) => EnumerationView {
                first_page: false,
                progress: if e.fatal() || state.first_page {
                    Progress::Aborted
                } else {
                    Progress::Finished
                },
                ..state
            },
            Ok(_) => EnumerationView {
                channels: merged(state.channels, page_channels(outcome)),
                cursor: page_cursor(outcome),
                first_page: false,
                progress: if page_cursor(outcome).len() == 0 {
                    Progress::Finished
                } else {
                    Progress::Fetching
                },
            },
        }
    }
}

/// The position is within bounds, points at a channel with the identifier
/// where it points at any, and no channel before it has the identifier.
pub proof fn lemma_id_position(s: Seq<ChannelView>, id: Seq<char>)
    ensures
        0 <= id_position(s, id) <= s.len(),
        id_position(s, id) < s.len() ==> s[id_position(s, id)].id == id,
        forall|j: int| 0 <= j < id_position(s, id) ==> (#[trigger] s[j]).id != id,
    decreases s.len(),
{
    if s.len() == 0 || s[0].id == id {
    } else {
        let rest = s.skip(1);
        lemma_id_position(rest, id);
        let p = id_position(rest, id);
        assert forall|j: int| 0 <= j < 1 + p implies (#[trigger] s[j]).id != id by {
            if j > 0 {
                assert(rest[j - 1] == s[j]);
            }
        }
        if p < rest.len() {
            assert(rest[p] == s[p + 1]);
        }
    }
}

/// While no channel met has the identifier, the position counts on from
/// where the scan is.
pub proof fn lemma_id_position_scan(s: Seq<ChannelView>, id: Seq<char>, i: int)
    requires
        0 <= i <= s.len(),
        forall|j: int| 0 <= j < i ==> (#[trigger] s[j]).id != id,
    ensures
        id_position(s, id) == i + id_position(s.skip(i), id),
    decreases i,
{
    if i == 0 {
        assert(s.skip(0) =~= s);
    } else {
        let rest = s.skip(1);
        assert(s[0].id != id);
        assert forall|j: int| 0 <= j < i - 1 implies (#[trigger] rest[j]).id != id by {
            assert(rest[j] == s[j + 1]);
        }
        lemma_id_position_scan(rest, id, i - 1);
        assert(rest.skip(i - 1) =~= s.skip(i));
    }
}

/// Seeing one more channel keeps identifiers distinct, and leaves that
/// channel, as it was last seen, the only one with its identifier.
pub proof fn lemma_merged_one(s: Seq<ChannelView>, c: ChannelView)
    requires
        distinct_ids(s),
    ensures
        distinct_ids(merged_one(s, c)),
        s.len() <= merged_one(s, c).len() <= s.len() + 1,
        exists|k: int|
            0 <= k < merged_one(s, c).len() && #[trigger] merged_one(s, c)[k] == c,
        forall|k: int|
            0 <= k < merged_one(s, c).len() && (#[trigger] merged_one(s, c)[k]).id == c.id
                ==> merged_one(s, c)[k] == c,
        forall|k: int|
            0 <= k < merged_one(s, c).len() && (#[trigger] merged_one(s, c)[k]).id != c.id
                ==> k < s.len() && merged_one(s, c)[k] == s[k],
{
    lemma_id_position(s, c.id);
    let p = id_position(s, c.id);
    let r = merged_one(s, c);
    if p < s.len() {
        assert(r[p] == c);
        assert forall|i: int, j: int| 0 <= i < j < r.len() implies (#[trigger] r[i]).id != (
        #[trigger] r[j]).id by {
            assert(r[i].id == s[i].id);
            assert(r[j].id == s[j].id);
        }
        assert forall|k: int| 0 <= k < r.len() && (#[trigger] r[k]).id == c.id implies r[k]
            == c by {
            if k != p {
                assert(s[k].id == s[p].id);
                if k < p {
                    assert(s[k].id != s[p].id);
                } else {
                    assert(s[p].id != s[k].id);
                }
            }
        }
    } else {
        assert(r[s.len() as int] == c);
        assert forall|i: int, j: int| 0 <= i < j < r.len() implies (#[trigger] r[i]).id != (
        #[trigger] r[j]).id by {
            if j < s.len() {
                assert(r[i] == s[i] && r[j] == s[j]);
            } else {
                assert(r[i] == s[i]);
            }
        }
    }
}

/// Seeing a page keeps identifiers distinct.
pub proof fn lemma_merged_distinct(s: Seq<ChannelView>, page: Seq<ChannelView>)
    requires
        distinct_ids(s),
    ensures
        distinct_ids(merged(s, page)),
    decreases page.len(),
{
    if page.len() > 0 {
        lemma_merged_distinct(s, page.drop_last());
        lemma_merged_one(merged(s, page.drop_last()), page.last());
    }
}

/// Where an enumeration stands after a run of answers, taken in order.
pub open spec fn after_pages(
    state: EnumerationView,
    outcomes: Seq<Result<ResponseView, ErrorView>>,
) -> EnumerationView
    decreases outcomes.len(),
{
    if outcomes.len() == 0 {
        state
    } else {
        after_page(after_pages(state, outcomes.drop_last()), outcomes.last())
    }
}

/// Whether an answer is a page that names a page to follow.
pub open spec fn page_with_more(outcome: Result<ResponseView, ErrorView>) -> bool {
    outcome is Ok && page_cursor(outcome).len() > 0
}

/// An enumeration ends with the first page whose cursor is empty, not
/// before and not after: while every page names a page to follow it goes on,
/// the page without one finishes it, and no later answer changes what it
/// holds. What it holds then has no identifier twice.
pub proof fn lemma_pagination_terminates(outcomes: Seq<Result<ResponseView, ErrorView>>, n: int)
    requires
        0 <= n < outcomes.len(),
        forall|i: int| 0 <= i < n ==> page_with_more(#[trigger] outcomes[i]),
        outcomes[n] is Ok,
        page_cursor(outcomes[n]).len() == 0,
    ensures
        forall|k: int|
            0 <= k <= n ==> (#[trigger] after_pages(started(), outcomes.take(k))).progress
                == Progress::Fetching,
        after_pages(started(), outcomes.take(n + 1)).progress == Progress::Finished,
        forall|k: int|
            n + 1 <= k <= outcomes.len() ==> #[trigger] after_pages(started(), outcomes.take(k))
                == after_pages(started(), outcomes.take(n + 1)),
        distinct_ids(after_pages(started(), outcomes.take(n + 1)).channels),
{
    assert forall|k: int| 0 <= k <= outcomes.len() implies ({
        let state = #[trigger] after_pages(started(), outcomes.take(k));
        &&& distinct_ids(state.channels)
        &&& k <= n ==> state.progress == Progress::Fetching
        &&& k >= n + 1 ==> state == after_pages(started(), outcomes.take(n + 1))
        &&& k == n + 1 ==> state.progress == Progress::Finished
    }) by {
        lemma_pages_step(outcomes, n, k);
    }
}

proof fn lemma_pages_step(outcomes: Seq<Result<ResponseView, ErrorView>>, n: int, k: int)
    requires
        0 <= n < outcomes.len(),
        0 <= k <= outcomes.len(),
        forall|i: int| 0 <= i < n ==> page_with_more(#[trigger] outcomes[i]),
        outcomes[n] is Ok,
        page_cursor(outcomes[n]).len() == 0,
    ensures
        distinct_ids(after_pages(started(), outcomes.take(k)).channels),
        k <= n ==> after_pages(started(), outcomes.take(k)).progress == Progress::Fetching,
        k >= n + 1 ==> after_pages(started(), outcomes.take(k)) == after_pages(
            started(),
            outcomes.take(n + 1),
        ),
        k == n + 1 ==> after_pages(started(), outcomes.take(k)).progress == Progress::Finished,
    decreases k,
{
    if k > 0 {
        lemma_pages_step(outcomes, n, k - 1);
        let before = after_pages(started(), outcomes.take(k - 1));
        assert(outcomes.take(k).drop_last() =~= outcomes.take(k - 1));
        assert(outcomes.take(k).last() == outcomes[k - 1]);
        lemma_enumeration_distinct(before, outcomes[k - 1]);
        if k - 1 < n {
            assert(page_with_more(outcomes[k - 1]));
        }
    }
}

/// Every enumeration that started empty holds no identifier twice, whatever
/// pages it was given.
pub proof fn lemma_enumeration_distinct(
    state: EnumerationView,
    outcome: Result<ResponseView, ErrorView>,
)
    requires
        distinct_ids(state.channels),
    ensures
        distinct_ids(started().channels),
        distinct_ids(after_page(state, outcome).channels),
{
    lemma_merged_distinct(state.channels, page_channels(outcome));
}

/// Adds a channel to those gathered: in place of the one with its
/// identifier, or at the end.
pub fn merge_channel(channels: &mut Vec<Channel>, channel: Channel)
    ensures
        channel_views(final(channels)@) == merged_one(channel_views(old(channels)@), channel@),
{
    let ghost s = channel_views(channels@);
    let n: usize = channels.len();
    let mut i: usize = 0;
    while i < n
        invariant
            n == channels@.len(),
            channels@ == old(channels)@,
            s == channel_views(channels@),
            i <= n,
            forall|j: int| 0 <= j < i ==> (#[trigger] s[j]).id != channel@.id,
        decreases n - i,
    {
        if channels[i].id == channel.id {
            proof {
                lemma_id_position_scan(s, channel@.id, i as int);
                assert(s[i as int] == channels@[i as int]@);
                assert(s.skip(i as int)[0] == s[i as int]);
                assert(id_position(s.skip(i as int), channel@.id) == 0);
                assert(id_position(s, channel@.id) == i);
            }
            channels.set(i, channel);
            assert(channel_views(channels@) =~= s.update(i as int, channel@));
            return ;
        }
        i = i + 1;
    }
    proof {
        lemma_id_position_scan(s, channel@.id, n as int);
    }
    channels.push(channel);
    assert(channel_views(channels@) =~= s.push(channel@));
}

/// Adds the channels of a page to those gathered, in the page's order.
pub fn merge_page(channels: &mut Vec<Channel>, page: Vec<Channel>)
    ensures
        channel_views(final(channels)@) == merged(
            channel_views(old(channels)@),
            channel_views(page@),
        ),
{
    let ghost s = channel_views(channels@);
    let ghost all = page@;
    let ghost p = channel_views(page@);
    assert(p.take(0) =~= Seq::<ChannelView>::empty());
    for channel in it: page
        invariant
            it.seq() == all,
            p == channel_views(all),
            channel_views(channels@) == merged(s, p.take(it.index() as int)),
    {
        let ghost k = it.index() as int;
        assert(p.take(k + 1).drop_last() =~= p.take(k));
        assert(p.take(k + 1).last() == channel@);
        merge_channel(channels, channel);
    }
    assert(p.take(all.len() as int) =~= p);
}

/// What a page request brought: the channels, and the cursor of the page
/// that follows. A failure, and a response without channels, bring nothing
/// and no cursor.
pub fn get_channel_data(outcome: Result<SlackResponse, SlackError>) -> (r: (Vec<Channel>, String))
    ensures
        channel_views(r.0@) == page_channels(outcome_view(outcome)),
        r.1@ == page_cursor(outcome_view(outcome)),
{
    match outcome {
        Ok(resp) => {
            let cursor = match resp.response_metadata {
                Some(metadata) => metadata.next_cursor,
                None => String::new(),
            };
            match resp.channels {
                Some(channels) => (channels, cursor),
                None => {
                    let none: Vec<Channel> = Vec::new();
                    assert(channel_views(none@) =~= Seq::<ChannelView>::empty());
                    (none, String::new())
                },
            }
        },
        Err(_) => {
            let none: Vec<Channel> = Vec::new();
            assert(channel_views(none@) =~= Seq::<ChannelView>::empty());
            (none, String::new())
        },
    }
}

impl Enumeration {
    /// Whether no two channels gathered share an identifier.
    pub open spec fn wf(self) -> bool {
        distinct_ids(self@.channels)
    }

    /// An enumeration before its first page.
    pub fn start() -> (r: Enumeration)
        ensures
            r@ == started(),
            r.wf(),
    {
        let r = Enumeration {
            channels: Vec::new(),
            cursor: String::new(),
            first_page: true,
            progress: Progress::Fetching,
        };
        assert(r@.channels =~= Seq::<ChannelView>::empty());
        r
    }

    /// Takes the answer to a page request into the enumeration.
    pub fn on_page(self, outcome: Result<SlackResponse, SlackError>) -> (r: Enumeration)
        ensures
            r@ == after_page(self@, outcome_view(outcome)),
            self.wf() ==> r.wf(),
    {
        proof {
            if self.wf() {
                lemma_enumeration_distinct(self@, outcome_view(outcome));
            }
        }
        match self.progress {
            Progress::Fetching => {},
            _ => {
                return self;
            },
        }
        let failure: Option<bool> = match &outcome {
            Ok(_) => None,
            Err(e) => Some(e.is_fatal()),
        };
        match failure {
            Some(fatal) => Enumeration {
                channels: self.channels,
                cursor: self.cursor,
                first_page: false,
                progress: if fatal || self.first_page {
                    Progress::Aborted
                } else {
                    Progress::Finished
                },
            },
            None => {
                let (page, cursor) = get_channel_data(outcome);
                let mut channels = self.channels;
                merge_page(&mut channels, page);
                let progress = if cursor.as_str().unicode_len() == 0 {
                    Progress::Finished
                } else {
                    Progress::Fetching
                };
                Enumeration { channels, cursor, first_page: false, progress }
            },
        }
    }

    /// The page request that the enumeration waits for; none once it is over.
    pub fn page_call(&self) -> (r: Option<ApiCall>)
        ensures
            r is Some <==> self.progress == Progress::Fetching,
            r matches Some(call) ==> call.method@ == "conversations.list"@ && pairs(call.params@)
                == list_params(self.cursor@),
    {
        match self.progress {
            Progress::Fetching => Some(list_channels_call(self.cursor.as_str())),
            _ => None,
        }
    }

    /// The channels gathered, once the enumeration has finished; none while
    /// it goes on, and none when it was aborted, for an aborted run posts
    /// nothing.
    pub fn into_channels(self) -> (r: Option<Vec<Channel>>)
        ensures
            r == if self.progress == Progress::Finished {
                Some(self.channels)
            } else {
                None
            },
    {
        match self.progress {
            Progress::Finished => Some(self.channels),
            _ => None,
        }
    }
}

} // verus!
