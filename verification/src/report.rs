//! The report: one line for each channel worth mentioning, under a header.

use vstd::prelude::*;
use chrono::NaiveDateTime;
use rand::seq::SliceRandom;
use crate::bot::ArchiveBot;
use crate::config::texts;
use crate::text::{decimal_text, push_decimal};
use crate::verdict::{ChannelData, ChannelDataView};

verus! {

/// The calendar date of a timestamp as the calendar library writes it, month
/// name first; `None` where the timestamp is beyond the calendar's range.
pub uninterp spec fn utc_date_text(t: i64) -> Option<Seq<char>>;

/// The date of the second `t` since the epoch, in UTC, as text.
///
/// Calls chrono's `NaiveDateTime::from_timestamp_opt` with no nanoseconds
/// and, where that gives a date-time, its `format` with `%b %d, %Y UTC`. The
/// contract only names the outcome: the same timestamp always gives the same
/// text, and gives none exactly where chrono has no date-time for it.
#[allow(deprecated)]
#[verifier::external_body]
fn utc_date(t: i64) -> (r: Option<String>)
    ensures
        r.deep_view() == utc_date_text(t),
{
    NaiveDateTime::from_timestamp_opt(t, 0).map(|d| d.format("%b %d, %Y UTC").to_string())
}

/// One of the options, picked at random.
///
/// Calls rand's `SliceRandom::choose` on the list with `thread_rng()`. As
/// rand documents it, an empty list gives nothing, and any other list gives
/// one of its elements; which one is not said. rand stops the program where
/// the operating system has no randomness to seed the generator with.
#[verifier::external_body]
fn choose_one<'a>(options: &Vec<&'a str>) -> (picked: Option<&'a str>)
    ensures
        match picked {
            Some(s) => exists|i: int| 0 <= i < options@.len() && (#[trigger] options@[i])@ == s@,
            None => options@.len() == 0,
        },
{
    options.choose(&mut rand::thread_rng()).copied()
}

/// A date that the reader's client shows in the reader's own time zone, with
/// `fallback` for clients that cannot.
pub open spec fn date_reference(t: int, fallback: Seq<char>) -> Seq<char> {
    "<!date^"@ + decimal_text(t) + "^{date_short}|"@ + fallback + ">"@
}

/// What stands in place of a date that cannot be written.
pub open spec fn date_placeholder() -> Seq<char> {
    "[unable to parse timestamp]"@
}

/// The rendered date of a timestamp: the placeholder for zero, else the date
/// reference with the calendar date as fallback; `None` where the calendar
/// has no date for it.
pub open spec fn formatted_timestamp(t: i64) -> Option<Seq<char>> {
    if t == 0 {
        Some(date_placeholder())
    } else {
        match utc_date_text(t) {
            Some(d) => Some(date_reference(t as int, d)),
            None => None,
        }
    }
}

/// The date as a report line shows it: rendered where it can be, else the
/// placeholder.
pub open spec fn date_phrase(t: i64) -> Seq<char> {
    match formatted_timestamp(t) {
        Some(s) => s,
        None => date_placeholder(),
    }
}

/// What a line says of the member count, in bold for a small channel.
pub open spec fn members_phrase(c: ChannelDataView) -> Seq<char> {
    if c.is_small {
        "has *"@ + decimal_text(c.num_members) + " members*."@
    } else {
        "has "@ + decimal_text(c.num_members) + " members."@
    }
}

/// What a line says of the channel's activity.
///
/// A private channel without data cannot be read; any other channel without
/// data has no recent messages; a channel whose last event is no relevant
/// message says so, unless it is private; every other channel shows its last
/// message. The date is in bold when the channel is stale.
pub open spec fn activity_phrase(c: ChannelDataView) -> Seq<char> {
    if c.last_message_ts == 0 {
        if c.is_private {
            "The channel is private, so I can't read the latest message."@
        } else {
            "No recent messages."@
        }
    } else if !c.is_private && !c.last_message_relevant {
        if c.is_old {
            "The last event was on *"@ + date_phrase(c.last_message_ts)
                + "*, but there are no recent messages."@
        } else {
            "The last event was on "@ + date_phrase(c.last_message_ts)
                + ", but there are no recent messages."@
        }
    } else if c.is_old {
        "The last message was on *"@ + date_phrase(c.last_message_ts) + "*."@
    } else {
        "The last message was on "@ + date_phrase(c.last_message_ts) + "."@
    }
}

/// The line of one channel.
pub open spec fn report_line(c: ChannelDataView) -> Seq<char> {
    "- <#"@ + c.id + "> "@ + members_phrase(c) + " "@ + activity_phrase(c) + "\n"@
}

/// The lines of all channels worth mentioning, in the order given.
pub open spec fn report_body(data: Seq<ChannelData>) -> Seq<char>
    decreases data.len(),
{
    if data.len() == 0 {
        Seq::empty()
    } else if data.last()@.reportable() {
        report_body(data.drop_last()) + report_line(data.last()@)
    } else {
        report_body(data.drop_last())
    }
}

/// The whole report under a header: empty when no channel is worth
/// mentioning, else the header on a line of its own and then the lines.
pub open spec fn report_text(data: Seq<ChannelData>, header: Seq<char>) -> Seq<char> {
    if report_body(data).len() == 0 {
        Seq::empty()
    } else {
        header + "\n"@ + report_body(data)
    }
}

/// Whether any channel is worth mentioning.
pub open spec fn any_reportable(data: Seq<ChannelData>) -> bool {
    exists|i: int| 0 <= i < data.len() && (#[trigger] data[i])@.reportable()
}

/// What the secondary channel is told: a header, and where the report is.
pub open spec fn secondary_text(header: Seq<char>, channel_id: Seq<char>) -> Seq<char> {
    header + " See <#"@ + channel_id + "> for details."@
}

/// The report is empty exactly when no channel is worth mentioning: every
/// channel that is adds a line, and no line is empty.
pub proof fn lemma_report_empty(data: Seq<ChannelData>)
    ensures
        report_body(data).len() == 0 <==> !any_reportable(data),
        forall|header: Seq<char>|
            (#[trigger] report_text(data, header)).len() == 0 <==> !any_reportable(data),
    decreases data.len(),
{
    if data.len() > 0 {
        let rest = data.drop_last();
        lemma_report_empty(rest);
        reveal_strlit("- <#");
        assert(report_line(data.last()@).len() >= "- <#"@.len());
        if data.last()@.reportable() {
            assert(data[data.len() - 1]@.reportable());
        } else if any_reportable(rest) {
            let i = choose|i: int| 0 <= i < rest.len() && (#[trigger] rest[i])@.reportable();
            assert(data[i]@.reportable());
        } else {
            assert forall|i: int| 0 <= i < data.len() implies !(#[trigger] data[i])@.reportable() by {
                if i < rest.len() {
                    assert(rest[i] == data[i]);
                }
            }
        }
    }
}

/// An ignored channel adds nothing to the report, however stale or small it
/// is: the report on a list is the report on the list without that channel,
/// under every header.
pub proof fn lemma_ignored_adds_no_line(data: Seq<ChannelData>, i: int, header: Seq<char>)
    requires
        0 <= i < data.len(),
        data[i]@.is_ignored,
    ensures
        report_body(data) == report_body(data.remove(i)),
        report_text(data, header) == report_text(data.remove(i), header),
    decreases data.len(),
{
    if i == data.len() - 1 {
        assert(data.remove(i) =~= data.drop_last());
    } else {
        let rest = data.drop_last();
        lemma_ignored_adds_no_line(rest, i, header);
        assert(data.remove(i).drop_last() =~= rest.remove(i));
        assert(data.remove(i).last() == data.last());
    }
}

/// A list of ignored channels gives the empty report, under every header.
pub proof fn lemma_all_ignored_is_empty(data: Seq<ChannelData>, header: Seq<char>)
    requires
        forall|i: int| 0 <= i < data.len() ==> (#[trigger] data[i])@.is_ignored,
    ensures
        !any_reportable(data),
        report_body(data) == Seq::<char>::empty(),
        report_text(data, header) == Seq::<char>::empty(),
{
    lemma_report_empty(data);
    assert(report_body(data) =~= Seq::<char>::empty());
}

/// Writes the date reference of a timestamp around a fallback text.
pub fn make_date_reference(t: i64, fallback: &str) -> (r: String)
    ensures
        r@ == date_reference(t as int, fallback@),
{
    let mut out = String::from_str("<!date^");
    push_decimal(&mut out, t);
    out.append("^{date_short}|");
    out.append(fallback);
    out.append(">");
    assert(out@ =~= date_reference(t as int, fallback@));
    out
}

impl ChannelData {
    /// Format timestamp to human date.
    ///
    /// The timestamp must be zero or have a calendar date.
    pub fn last_message_ts_formatted(&self) -> (r: String)
        requires
            self.last_message_ts == 0 || utc_date_text(self.last_message_ts) is Some,
        ensures
            Some(r@) == formatted_timestamp(self.last_message_ts),
    {
        let t: i64 = self.last_message_ts;
        if t == 0 {
            return String::from_str("[unable to parse timestamp]");
        }
        match utc_date(t) {
            Some(fallback) => make_date_reference(t, fallback.as_str()),
            None => String::new(),
        }
    }

    /// Format timestamp to human date, where it has one: `None` for a
    /// timestamp beyond the calendar's range.
    pub fn try_last_message_ts_formatted(&self) -> (r: Option<String>)
        ensures
            r.deep_view() == formatted_timestamp(self.last_message_ts),
    {
        if self.last_message_ts != 0 && utc_date(self.last_message_ts).is_none() {
            None
        } else {
            Some(self.last_message_ts_formatted())
        }
    }

    fn push_date_phrase(&self, out: &mut String)
        ensures
            final(out)@ == old(out)@ + date_phrase(self.last_message_ts),
    {
        match self.try_last_message_ts_formatted() {
            Some(d) => out.append(d.as_str()),
            None => out.append("[unable to parse timestamp]"),
        }
    }

    fn push_members_phrase(&self, out: &mut String)
        ensures
            final(out)@ == old(out)@ + members_phrase(self@),
    {
        if self.is_small {
            out.append("has *");
            push_decimal(out, self.num_members as i64);
            out.append(" members*.");
        } else {
            out.append("has ");
            push_decimal(out, self.num_members as i64);
            out.append(" members.");
        }
        assert(final(out)@ =~= old(out)@ + members_phrase(self@));
    }

    fn push_activity_phrase(&self, out: &mut String)
        ensures
            final(out)@ == old(out)@ + activity_phrase(self@),
    {
        if self.last_message_ts == 0 {
            if self.is_private {
                out.append("The channel is private, so I can't read the latest message.");
            } else {
                out.append("No recent messages.");
            }
        } else if !self.is_private && !self.last_message_relevant {
            if self.is_old {
                out.append("The last event was on *");
                self.push_date_phrase(out);
                out.append("*, but there are no recent messages.");
            } else {
                out.append("The last event was on ");
                self.push_date_phrase(out);
                out.append(", but there are no recent messages.");
            }
        } else if self.is_old {
            out.append("The last message was on *");
            self.push_date_phrase(out);
            out.append("*.");
        } else {
            out.append("The last message was on ");
            self.push_date_phrase(out);
            out.append(".");
        }
        assert(final(out)@ =~= old(out)@ + activity_phrase(self@));
    }

    /// Appends the report line of this channel.
    pub fn push_report_line(&self, out: &mut String)
        ensures
            final(out)@ == old(out)@ + report_line(self@),
    {
        out.append("- <#");
        out.append(self.id.as_str());
        out.append("> ");
        self.push_members_phrase(out);
        out.append(" ");
        self.push_activity_phrase(out);
        out.append("\n");
        assert(final(out)@ =~= old(out)@ + report_line(self@));
    }
}

/// The lines of the channels worth mentioning, without a header.
pub fn build_report_body(data: &Vec<ChannelData>) -> (r: String)
    ensures
        r@ == report_body(data@),
{
    let mut out = String::new();
    let n: usize = data.len();
    let mut i: usize = 0;
    assert(data@.take(0) =~= Seq::<ChannelData>::empty());
    while i < n
        invariant
            n == data@.len(),
            i <= n,
            out@ == report_body(data@.take(i as int)),
        decreases n - i,
    {
        let channel = &data[i];
        assert(data@.take(i + 1).drop_last() =~= data@.take(i as int));
        assert(data@.take(i + 1).last() == data@[i as int]);
        if (channel.is_old || channel.is_small) && !channel.is_ignored {
            channel.push_report_line(&mut out);
        }
        i = i + 1;
    }
    assert(data@.take(n as int) =~= data@);
    out
}

/// Builds the report on the verdicts under the given header. The report is
/// empty, header and all, when no channel is worth mentioning.
pub fn build_report(data: &Vec<ChannelData>, header: &str) -> (r: String)
    ensures
        r@ == report_text(data@, header@),
{
    let body = build_report_body(data);
    if body.as_str().unicode_len() == 0 {
        return body;
    }
    let mut out = String::from_str(header);
    out.append("\n");
    out.append(body.as_str());
    assert(out@ =~= header@ + "\n"@ + report_body(data@));
    out
}

impl ArchiveBot {
    /// Parse data to create regular update message to post regarding channel
    /// status, under a header picked at random. The message is empty when no
    /// channel is worth mentioning.
    ///
    /// There must be a header to pick when any channel is worth mentioning.
    pub fn create_message(&self, data: &Vec<ChannelData>) -> (r: String)
        requires
            any_reportable(data@) ==> self.config.message_headers@.len() > 0,
        ensures
            !any_reportable(data@) ==> r@ == Seq::<char>::empty(),
            any_reportable(data@) ==> r@.len() > 0,
            self.config.message_headers@.len() > 0 ==> exists|i: int|
                0 <= i < self.config.message_headers@.len() && r@ == report_text(
                    data@,
                    #[trigger] texts(self.config.message_headers@)[i],
                ),
    {
        proof {
            lemma_report_empty(data@);
        }
        match choose_one(&self.config.message_headers) {
            Some(header) => {
                let r = build_report(data, header);
                proof {
                    let i = choose|i: int|
                        0 <= i < self.config.message_headers@.len() && (
                        #[trigger] self.config.message_headers@[i])@ == header@;
                    assert(texts(self.config.message_headers@)[i] == header@);
                    if !any_reportable(data@) {
                        assert(r@ =~= Seq::<char>::empty());
                    }
                }
                r
            },
            None => String::new(),
        }
    }

    /// Create secondary notification message, under a header picked at random.
    pub fn create_secondary_message(&self) -> (r: String)
        requires
            self.config.secondary_message_headers@.len() > 0,
        ensures
            exists|i: int|
                0 <= i < self.config.secondary_message_headers@.len() && r@ == secondary_text(
                    #[trigger] texts(self.config.secondary_message_headers@)[i],
                    self.config.notification_channel_id@,
                ),
    {
        match choose_one(&self.config.secondary_message_headers) {
            Some(header) => {
                let out = make_secondary_message(header, self.config.notification_channel_id.as_str());
                proof {
                    let i = choose|i: int|
                        0 <= i < self.config.secondary_message_headers@.len() && (
                        #[trigger] self.config.secondary_message_headers@[i])@ == header@;
                    assert(texts(self.config.secondary_message_headers@)[i] == header@);
                }
                out
            },
            None => String::new(),
        }
    }
}

/// Writes the secondary notification under the given header.
pub fn make_secondary_message(header: &str, channel_id: &str) -> (r: String)
    ensures
        r@ == secondary_text(header@, channel_id@),
{
    let mut out = String::from_str(header);
    out.append(" See <#");
    out.append(channel_id);
    out.append("> for details.");
    assert(out@ =~= secondary_text(header@, channel_id@));
    out
}

} // verus!
