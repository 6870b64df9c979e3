use archive_bot::bot::ArchiveBot;
use archive_bot::channel::Channel;
use archive_bot::config::Config;
use archive_bot::error::SlackError;
use archive_bot::inspect::{get_last_message, history_messages, Inspection, NextStep};
use archive_bot::message::Message;
use archive_bot::response::SlackResponse;
use archive_bot::timestamp::Timestamp;

fn bot() -> ArchiveBot {
    ArchiveBot::new(Config {
        filter_prefixes: vec!["-", "ext-"],
        stale_after: 1_209_600,
        ..Config::default()
    })
}

fn channel(id: &str, name: &str, is_member: bool, is_private: bool, num_members: i32) -> Channel {
    Channel {
        id: id.to_string(),
        name: name.to_string(),
        is_channel: true,
        is_group: false,
        is_im: false,
        is_archived: false,
        is_general: false,
        unlinked: false,
        is_read_only: false,
        is_shared: false,
        is_ext_shared: false,
        is_org_shared: false,
        is_pending_ext_shared: false,
        is_member,
        is_private,
        is_mpim: false,
        num_members,
        creator: None,
        created: None,
        last_read: None,
        name_normalized: None,
        pending_shared: None,
        previous_names: None,
    }
}

fn message(event_type: &str, subtype: &str, ts: Option<i64>, text: &str) -> Message {
    Message {
        event_type: event_type.to_string(),
        subtype: subtype.to_string(),
        channel: None,
        user: None,
        text: Some(text.to_string()),
        ts: ts.map(Timestamp::new),
    }
}

fn response(messages: Option<Vec<Message>>) -> SlackResponse {
    SlackResponse {
        channels: None,
        messages,
        url: None,
        team: None,
        user: None,
        team_id: None,
        user_id: None,
        bot_id: None,
        response_metadata: None,
        error: None,
        ok: true,
    }
}

fn text_of(m: Option<&Message>) -> Option<String> {
    m.and_then(|m| m.text.clone())
}

#[test]
fn ignore_type_of_each_subtype() {
    let ignored = [
        "bot_add",
        "bot_remove",
        "bot_message",
        "message_deleted",
        "channel_join",
        "channel_leave",
        "channel_topic",
        "channel_purpose",
        "channel_name",
        "channel_archive",
        "channel_unarchive",
        "pinned_item",
        "unpinned_item",
        "ekm_access_denied",
        "channel_posting_permissions",
    ];
    for subtype in ignored {
        assert!(message("message", subtype, Some(1), "x").ignore_type(), "subtype {}", subtype);
    }
    for subtype in ["", "file_share", "thread_broadcast", "me_message", "BOT_MESSAGE", "bot_add "] {
        assert!(!message("message", subtype, Some(1), "x").ignore_type(), "subtype {}", subtype);
    }
}

#[test]
fn ignore_type_of_other_events() {
    assert!(message("", "", Some(1), "x").ignore_type());
    assert!(message("reaction_added", "", Some(1), "x").ignore_type());
    assert!(message("Message", "", Some(1), "x").ignore_type());
    assert!(message("reaction_added", "bot_message", Some(1), "x").ignore_type());
    assert!(!message("message", "", None, "x").ignore_type());
}

#[test]
fn last_message_is_the_newest_relevant() {
    let history = vec![
        message("message", "channel_join", Some(50), "join"),
        message("message", "bot_message", Some(40), "bot"),
        message("message", "", Some(30), "hello"),
        message("message", "", Some(20), "older"),
    ];
    assert_eq!(text_of(get_last_message(&history)), Some("hello".to_string()));
}

#[test]
fn last_message_falls_back_to_the_newest() {
    let history = vec![
        message("message", "channel_join", Some(50), "join"),
        message("message", "bot_message", Some(40), "bot"),
        message("reaction_added", "", Some(30), "reaction"),
    ];
    assert_eq!(text_of(get_last_message(&history)), Some("join".to_string()));
}

#[test]
fn last_message_of_empty_history() {
    let history: Vec<Message> = vec![];
    assert!(get_last_message(&history).is_none());
}

#[test]
fn last_message_first_is_relevant() {
    let history = vec![
        message("message", "", Some(50), "first"),
        message("message", "", Some(40), "second"),
    ];
    assert_eq!(text_of(get_last_message(&history)), Some("first".to_string()));
}

#[test]
fn relevance_scan_twice_gives_the_same() {
    let histories = vec![
        vec![],
        vec![message("message", "channel_join", Some(5), "a")],
        vec![message("message", "", Some(5), "a")],
        vec![
            message("message", "pinned_item", Some(9), "a"),
            message("message", "", Some(8), "b"),
            message("message", "", Some(7), "c"),
        ],
        vec![
            message("message", "pinned_item", Some(9), "a"),
            message("message", "channel_leave", Some(8), "b"),
        ],
    ];
    for history in histories {
        let first = get_last_message(&history).cloned();
        let second = get_last_message(&history).cloned();
        assert_eq!(text_of(first.as_ref()), text_of(second.as_ref()));
        assert_eq!(first.as_ref().map(|m| m.ts), second.as_ref().map(|m| m.ts));
        if let Some(m) = first {
            let alone = vec![m.clone()];
            let again = get_last_message(&alone);
            assert_eq!(text_of(again), m.text);
        }
    }
}

#[test]
fn history_messages_of_each_outcome() {
    let got = history_messages(Ok(response(Some(vec![message("message", "", Some(1), "a")]))));
    assert_eq!(got.map(|m| m.len()), Some(1));
    assert!(history_messages(Ok(response(None))).is_none());
    assert!(history_messages(Err(SlackError::NotInChannel)).is_none());
    assert!(history_messages(Err(SlackError::RateLimited)).is_none());
    assert!(history_messages(Err(SlackError::Client("down".to_string()))).is_none());
}

#[test]
fn ignored_channel_short_circuits() {
    let bot = bot();
    let c = channel("C9", "-secret", false, false, 1);
    let start = bot.begin_inspection(&c);
    assert!(start.is_ignored);
    assert!(!start.is_member);
    assert_eq!(start.next, NextStep::Classify);
    assert!(start.history.is_empty());

    let after = start.joined(&c, &Ok(response(None)));
    assert_eq!(after.next, NextStep::Classify);
    assert!(!after.is_member);
    let history = Ok(response(Some(vec![message("message", "", Some(1), "old")])));
    let after = after.fetched(history);
    assert_eq!(after.next, NextStep::Classify);
    assert!(after.history.is_empty());

    let v = bot.conclude(&c, &after, 1_700_000_000);
    assert!(v.is_ignored);
    assert!(v.is_small);
    assert!(!bot.channel_should_be_mentioned(&v));
}

#[test]
fn ignored_member_channel_keeps_reported_membership() {
    let bot = bot();
    let c = channel("C9", "ext-partners", true, false, 2);
    let start = bot.begin_inspection(&c);
    assert!(start.is_member);
    assert_eq!(start.next, NextStep::Classify);
    let v = bot.conclude(&c, &start, 1_700_000_000);
    assert_eq!(v.num_members, 1);
    assert_eq!(v.last_message_ts, 0);
    assert!(!bot.channel_should_be_mentioned(&v));
}

#[test]
fn public_channel_is_joined_then_read() {
    let bot = bot();
    let c = channel("C1", "general", false, false, 10);
    let start = bot.begin_inspection(&c);
    assert_eq!(start.next, NextStep::Join);
    let joined = start.joined(&c, &Ok(response(None)));
    assert!(joined.is_member);
    assert_eq!(joined.next, NextStep::FetchHistory);
    let now: i64 = 1_700_000_000;
    let history = Ok(response(Some(vec![
        message("message", "channel_join", Some(now - 10), "bot joined"),
        message("message", "", Some(now - 100), "hello"),
    ])));
    let done = joined.fetched(history);
    assert_eq!(done.next, NextStep::Classify);
    assert_eq!(done.history.len(), 2);
    let v = bot.conclude(&c, &done, now);
    assert_eq!(v.num_members, 9);
    assert_eq!(v.last_message_ts, now - 100);
    assert!(v.last_message_relevant);
    assert!(!v.is_old);
}

#[test]
fn failed_join_falls_back_to_reported_membership() {
    let bot = bot();
    let c = channel("C1", "general", false, false, 10);
    let start = bot.begin_inspection(&c);
    let after = start.joined(&c, &Err(SlackError::ChannelNotFound));
    assert!(!after.is_member);
    assert_eq!(after.next, NextStep::Classify);
    let v = bot.conclude(&c, &after, 1_700_000_000);
    assert_eq!(v.num_members, 10);
    assert_eq!(v.last_message_ts, 0);
}

#[test]
fn invalid_auth_aborts_the_run() {
    let bot = bot();
    let c = channel("C1", "general", false, false, 10);
    let start = bot.begin_inspection(&c);
    let after = start.joined(&c, &Err(SlackError::InvalidAuth));
    assert_eq!(after.next, NextStep::Abort);

    let m = channel("C2", "random", true, false, 10);
    let start = bot.begin_inspection(&m);
    assert_eq!(start.next, NextStep::FetchHistory);
    let after = start.fetched(Err(SlackError::InvalidAuth));
    assert_eq!(after.next, NextStep::Abort);
}

#[test]
fn history_failures_are_soft() {
    let bot = bot();
    let m = channel("C2", "random", true, false, 10);
    for failure in [
        SlackError::NotInChannel,
        SlackError::RateLimited,
        SlackError::Unknown("odd".to_string()),
        SlackError::Client("down".to_string()),
        SlackError::MalformedResponse("eof".to_string()),
    ] {
        let start = bot.begin_inspection(&m);
        let after = start.fetched(Err(failure));
        assert_eq!(after.next, NextStep::Classify);
        assert!(after.is_member);
        assert!(after.history.is_empty());
        let v = bot.conclude(&m, &after, 1_700_000_000);
        assert_eq!(v.last_message_ts, 0);
        assert_eq!(v.num_members, 9);
    }
}

#[test]
fn private_channel_is_not_joined() {
    let bot = bot();
    let c = channel("G1", "leads", false, true, 4);
    let start = bot.begin_inspection(&c);
    assert_eq!(start.next, NextStep::Classify);
    assert!(!start.is_member);
    let p = channel("G2", "leads-in", true, true, 4);
    assert_eq!(bot.begin_inspection(&p).next, NextStep::FetchHistory);
}

#[test]
fn answers_nobody_waited_for_change_nothing() {
    let bot = bot();
    let m = channel("C2", "random", true, false, 10);
    let start = bot.begin_inspection(&m);
    let same = start.joined(&m, &Ok(response(None)));
    assert_eq!(same.next, NextStep::FetchHistory);
    assert!(same.is_member);
    let done = Inspection { is_ignored: false, is_member: false, history: vec![], next: NextStep::Classify };
    let after = done.fetched(Ok(response(Some(vec![message("message", "", Some(1), "x")]))));
    assert!(after.history.is_empty());
    assert_eq!(after.next, NextStep::Classify);
    let aborted = Inspection { is_ignored: false, is_member: false, history: vec![], next: NextStep::Abort };
    let after = aborted.joined(&m, &Ok(response(None)));
    assert_eq!(after.next, NextStep::Abort);
    assert!(!after.is_member);
}

#[test]
fn maybe_join_channel_membership() {
    let open = channel("C1", "general", false, false, 10);
    let member = channel("C2", "random", true, false, 10);
    assert!(ArchiveBot::maybe_join_channel(&open, &Ok(response(None))));
    assert!(!ArchiveBot::maybe_join_channel(&open, &Err(SlackError::IsArchived)));
    assert!(ArchiveBot::maybe_join_channel(&member, &Err(SlackError::IsArchived)));
}

#[test]
fn parse_channel_reads_the_clock() {
    let bot = bot();
    let c = channel("C2", "random", true, false, 10);
    let ancient = Inspection {
        is_ignored: false,
        is_member: true,
        history: vec![message("message", "", Some(1_000_000), "long ago")],
        next: NextStep::Classify,
    };
    let v = bot.parse_channel(&c, &ancient);
    assert!(v.is_old);
    assert_eq!(v.last_message_ts, 1_000_000);
    let future = Inspection {
        is_ignored: false,
        is_member: true,
        history: vec![message("message", "", Some(i64::MAX), "not yet")],
        next: NextStep::Classify,
    };
    assert!(!bot.parse_channel(&c, &future).is_old);
}

#[test]
fn inspection_call_of_each_step() {
    let bot = ArchiveBot::new(Config { history_lookback: 25, ..Config::default() });
    let c = channel("C77", "general", false, false, 10);
    let state = bot.begin_inspection(&c);
    let call = bot.inspection_call(&c, &state).expect("the channel is to be joined");
    assert_eq!(call.method, "conversations.join");
    assert_eq!(call.params, vec![("channel".to_string(), "C77".to_string())]);
    let state = state.joined(&c, &Ok(response(None)));
    let call = bot.inspection_call(&c, &state).expect("the history is to be read");
    assert_eq!(call.method, "conversations.history");
    assert_eq!(
        call.params,
        vec![("channel".to_string(), "C77".to_string()), ("limit".to_string(), "25".to_string())]
    );
    let state = state.fetched(Err(SlackError::NotInChannel));
    assert!(bot.inspection_call(&c, &state).is_none());
    let aborted = bot.begin_inspection(&c).joined(&c, &Err(SlackError::InvalidAuth));
    assert!(bot.inspection_call(&c, &aborted).is_none());
    assert_eq!(ArchiveBot::default().config.history_lookback, 10);
}

#[test]
fn answered_takes_whichever_answer_was_waited_for() {
    let bot = bot();
    let c = channel("C1", "general", false, false, 10);
    let state = bot.begin_inspection(&c).answered(&c, Ok(response(None)));
    assert!(state.is_member);
    assert_eq!(state.next, NextStep::FetchHistory);
    let history = Ok(response(Some(vec![message("message", "", Some(7), "hello")])));
    let state = state.answered(&c, history);
    assert_eq!(state.next, NextStep::Classify);
    assert_eq!(state.history.len(), 1);
    let state = state.answered(&c, Ok(response(Some(vec![]))));
    assert_eq!(state.next, NextStep::Classify);
    assert_eq!(state.history.len(), 1);
    let aborted = bot.begin_inspection(&c).answered(&c, Err(SlackError::InvalidAuth));
    assert_eq!(aborted.next, NextStep::Abort);
}

#[test]
fn finish_gives_a_verdict_only_when_through() {
    let bot = bot();
    let c = channel("C1", "general", false, false, 10);
    let waiting = bot.begin_inspection(&c);
    assert!(bot.finish_inspection(&c, &waiting).is_none());
    let aborted = bot.begin_inspection(&c).answered(&c, Err(SlackError::InvalidAuth));
    assert!(bot.finish_inspection(&c, &aborted).is_none());
    let through = bot.begin_inspection(&c).answered(&c, Err(SlackError::IsArchived));
    let verdict = bot.finish_inspection(&c, &through).expect("the inspection is through");
    assert_eq!(verdict.id, "C1");
    assert_eq!(verdict.num_members, 10);
    assert_eq!(verdict.last_message_ts, 0);
}
