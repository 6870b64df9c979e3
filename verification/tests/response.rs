use archive_bot::channel::{normalize_channel, normalize_channels, normalize_count, RawChannel};
use archive_bot::error::SlackError;
use archive_bot::message::{normalize_message, normalize_messages, RawMessage};
use archive_bot::response::{normalize_response, receive, RawResponse, Reply, SlackResponse, SlackResponseMeta};
use archive_bot::timestamp::Timestamp;
use archive_bot::value::{NormalizeError, RawValue};

fn text(s: &str) -> RawValue {
    RawValue::Text(s.to_string())
}

fn raw_channel(id: Option<&str>) -> RawChannel {
    RawChannel {
        id: id.map(text),
        name: None,
        is_channel: None,
        is_group: None,
        is_im: None,
        created: None,
        creator: None,
        is_archived: None,
        is_general: None,
        unlinked: None,
        name_normalized: None,
        is_read_only: None,
        is_shared: None,
        is_ext_shared: None,
        is_org_shared: None,
        pending_shared: None,
        is_pending_ext_shared: None,
        is_member: None,
        is_private: None,
        is_mpim: None,
        last_read: None,
        previous_names: None,
        num_members: None,
    }
}

fn raw_message(ts: Option<RawValue>) -> RawMessage {
    RawMessage {
        event_type: Some("message".to_string()),
        subtype: None,
        channel: None,
        user: Some("U1".to_string()),
        text: Some("hello".to_string()),
        ts,
    }
}

fn raw_response(ok: Option<RawValue>, error: Option<&str>) -> RawResponse {
    RawResponse {
        channels: None,
        messages: None,
        url: None,
        team: None,
        user: None,
        team_id: None,
        user_id: None,
        bot_id: None,
        response_metadata: None,
        error: error.map(|s| s.to_string()),
        ok,
    }
}

#[test]
fn channel_defaults_for_absent_fields() {
    let c = normalize_channel(raw_channel(Some("C1"))).expect("only the identifier is required");
    assert_eq!(c.id, "C1");
    assert_eq!(c.name, "");
    assert!(c.is_channel);
    assert!(!c.is_group);
    assert!(!c.is_im);
    assert!(!c.is_archived);
    assert!(!c.is_general);
    assert!(!c.unlinked);
    assert!(!c.is_read_only);
    assert!(!c.is_shared);
    assert!(!c.is_ext_shared);
    assert!(!c.is_org_shared);
    assert!(!c.is_pending_ext_shared);
    assert!(!c.is_member);
    assert!(!c.is_private);
    assert!(!c.is_mpim);
    assert_eq!(c.num_members, 0);
    assert_eq!(c.created, None);
    assert_eq!(c.creator, None);
}

#[test]
fn channel_with_mixed_encodings() {
    let raw = RawChannel {
        name: Some(text("general")),
        is_channel: Some(text("0")),
        is_group: Some(text("1")),
        is_im: Some(RawValue::Integer(1)),
        created: Some(text("1449709364.000")),
        creator: Some("U024BE7LH".to_string()),
        is_archived: Some(RawValue::Bool(true)),
        is_general: Some(text("true")),
        unlinked: Some(RawValue::Integer(0)),
        name_normalized: Some("general".to_string()),
        is_read_only: Some(text("FALSE")),
        is_shared: Some(text("false")),
        is_ext_shared: Some(text("")),
        is_org_shared: Some(RawValue::Null),
        pending_shared: Some(vec!["T1".to_string()]),
        is_pending_ext_shared: Some(text("yes")),
        is_member: Some(text("1")),
        is_private: Some(RawValue::Integer(7)),
        is_mpim: Some(RawValue::Bool(false)),
        last_read: Some("1449709364.000".to_string()),
        previous_names: Some(vec!["specifics".to_string(), "abstractions".to_string()]),
        num_members: Some(RawValue::Integer(23)),
        ..raw_channel(Some("C024BE91L"))
    };
    let c = normalize_channel(raw).expect("every field denotes something");
    assert_eq!(c.id, "C024BE91L");
    assert_eq!(c.name, "general");
    assert!(!c.is_channel);
    assert!(c.is_group);
    assert!(c.is_im);
    assert_eq!(c.created, Some(Timestamp(1449709364)));
    assert_eq!(c.creator, Some("U024BE7LH".to_string()));
    assert!(c.is_archived);
    assert!(c.is_general);
    assert!(!c.unlinked);
    assert_eq!(c.name_normalized, Some("general".to_string()));
    assert!(!c.is_read_only);
    assert!(!c.is_shared);
    assert!(!c.is_ext_shared);
    assert!(!c.is_org_shared);
    assert_eq!(c.pending_shared, Some(vec!["T1".to_string()]));
    assert!(c.is_pending_ext_shared);
    assert!(c.is_member);
    assert!(c.is_private);
    assert!(!c.is_mpim);
    assert_eq!(c.last_read, Some("1449709364.000".to_string()));
    assert_eq!(c.previous_names, Some(vec!["specifics".to_string(), "abstractions".to_string()]));
    assert_eq!(c.num_members, 23);
}

#[test]
fn channel_without_identifier_is_dropped() {
    assert!(normalize_channel(raw_channel(None)).is_none());
    for id in [RawValue::Null, RawValue::Integer(7), RawValue::Bool(true), RawValue::Array] {
        let raw = RawChannel { id: Some(id), ..raw_channel(None) };
        assert!(normalize_channel(raw).is_none());
    }
    let empty = normalize_channel(raw_channel(Some(""))).expect("an empty identifier is one");
    assert_eq!(empty.id, "");
}

#[test]
fn channel_with_a_malformed_field_is_dropped() {
    let bad = [
        RawChannel { name: Some(RawValue::Integer(5)), ..raw_channel(Some("C1")) },
        RawChannel { name: Some(RawValue::Null), ..raw_channel(Some("C1")) },
        RawChannel { is_channel: Some(RawValue::Array), ..raw_channel(Some("C1")) },
        RawChannel { is_group: Some(RawValue::Object), ..raw_channel(Some("C1")) },
        RawChannel { is_im: Some(RawValue::Object), ..raw_channel(Some("C1")) },
        RawChannel { created: Some(text("abc")), ..raw_channel(Some("C1")) },
        RawChannel { is_archived: Some(RawValue::Array), ..raw_channel(Some("C1")) },
        RawChannel { is_general: Some(RawValue::Array), ..raw_channel(Some("C1")) },
        RawChannel { unlinked: Some(RawValue::Array), ..raw_channel(Some("C1")) },
        RawChannel { is_read_only: Some(RawValue::Array), ..raw_channel(Some("C1")) },
        RawChannel { is_shared: Some(RawValue::Array), ..raw_channel(Some("C1")) },
        RawChannel { is_ext_shared: Some(RawValue::Array), ..raw_channel(Some("C1")) },
        RawChannel { is_org_shared: Some(RawValue::Array), ..raw_channel(Some("C1")) },
        RawChannel { is_pending_ext_shared: Some(RawValue::Array), ..raw_channel(Some("C1")) },
        RawChannel { is_member: Some(RawValue::Array), ..raw_channel(Some("C1")) },
        RawChannel { is_private: Some(RawValue::Array), ..raw_channel(Some("C1")) },
        RawChannel { is_mpim: Some(RawValue::Array), ..raw_channel(Some("C1")) },
        RawChannel { num_members: Some(RawValue::Integer(-1)), ..raw_channel(Some("C1")) },
        RawChannel { num_members: Some(text("3")), ..raw_channel(Some("C1")) },
    ];
    for raw in bad {
        assert!(normalize_channel(raw.clone()).is_none(), "record {:?}", raw);
    }
}

#[test]
fn member_counts() {
    assert_eq!(normalize_count(&None), Ok(0));
    assert_eq!(normalize_count(&Some(RawValue::Integer(0))), Ok(0));
    assert_eq!(normalize_count(&Some(RawValue::Integer(2_147_483_647))), Ok(i32::MAX));
    let bad = Err(NormalizeError::MalformedCount);
    assert_eq!(normalize_count(&Some(RawValue::Integer(2_147_483_648))), bad);
    assert_eq!(normalize_count(&Some(RawValue::Integer(-1))), bad);
    assert_eq!(normalize_count(&Some(RawValue::Real { whole: 3, is_zero: false })), bad);
    assert_eq!(normalize_count(&Some(RawValue::Null)), bad);
    assert_eq!(normalize_count(&Some(text("3"))), bad);
    assert_eq!(normalize_count(&Some(RawValue::Bool(true))), bad);
}

#[test]
fn batch_drops_only_the_bad_records() {
    let raws = vec![
        raw_channel(Some("C1")),
        raw_channel(None),
        RawChannel { is_member: Some(RawValue::Object), ..raw_channel(Some("C2")) },
        raw_channel(Some("C3")),
        RawChannel { num_members: Some(RawValue::Integer(-4)), ..raw_channel(Some("C4")) },
        RawChannel { is_member: Some(text("1")), ..raw_channel(Some("C5")) },
    ];
    let channels = normalize_channels(raws);
    let ids: Vec<&str> = channels.iter().map(|c| c.id.as_str()).collect();
    assert_eq!(ids, vec!["C1", "C3", "C5"]);
    assert!(channels[2].is_member);
    assert!(normalize_channels(vec![]).is_empty());
    assert!(normalize_channels(vec![raw_channel(None)]).is_empty());
}

#[test]
fn message_normalization() {
    let m = normalize_message(raw_message(Some(text("1690000000.4321")))).expect("well-formed");
    assert_eq!(m.event_type, "message");
    assert_eq!(m.subtype, "");
    assert_eq!(m.user, Some("U1".to_string()));
    assert_eq!(m.text, Some("hello".to_string()));
    assert_eq!(m.channel, None);
    assert_eq!(m.ts, Some(Timestamp(1690000000)));
    assert_eq!(normalize_message(raw_message(None)).expect("absent is fine").ts, None);
    assert_eq!(normalize_message(raw_message(Some(RawValue::Null))).expect("null is fine").ts, None);
    assert!(normalize_message(raw_message(Some(text("abc")))).is_none());
    let bare = RawMessage { event_type: None, subtype: Some("bot_message".to_string()), channel: None, user: None, text: None, ts: None };
    let m = normalize_message(bare).expect("nothing is required");
    assert_eq!(m.event_type, "");
    assert_eq!(m.subtype, "bot_message");
    assert!(m.ignore_type());
}

#[test]
fn message_batch_drops_only_the_bad_records() {
    let raws = vec![
        raw_message(Some(RawValue::Integer(3))),
        raw_message(Some(text("abc"))),
        raw_message(Some(RawValue::Real { whole: 2, is_zero: false })),
        raw_message(Some(RawValue::Array)),
        raw_message(None),
    ];
    let messages = normalize_messages(raws);
    let stamps: Vec<Option<Timestamp>> = messages.iter().map(|m| m.ts).collect();
    assert_eq!(stamps, vec![Some(Timestamp(3)), Some(Timestamp(2)), None]);
}

#[test]
fn response_normalization() {
    let raw = RawResponse {
        channels: Some(vec![raw_channel(Some("C1")), raw_channel(None)]),
        messages: Some(vec![raw_message(Some(text("12.5"))), raw_message(Some(text("x")))]),
        url: Some("https://example.slack.com/".to_string()),
        team: Some("Example".to_string()),
        user: Some("bot".to_string()),
        team_id: Some("T1".to_string()),
        user_id: Some("U1".to_string()),
        bot_id: Some("B1".to_string()),
        response_metadata: Some(SlackResponseMeta { next_cursor: "abc".to_string() }),
        ..raw_response(Some(text("true")), None)
    };
    let resp = normalize_response(raw).expect("the flag denotes a boolean");
    assert!(resp.ok);
    assert_eq!(resp.channels.as_ref().map(|c| c.len()), Some(1));
    assert_eq!(resp.messages.as_ref().map(|m| m.len()), Some(1));
    assert_eq!(resp.url, Some("https://example.slack.com/".to_string()));
    assert_eq!(resp.team, Some("Example".to_string()));
    assert_eq!(resp.user, Some("bot".to_string()));
    assert_eq!(resp.team_id, Some("T1".to_string()));
    assert_eq!(resp.user_id, Some("U1".to_string()));
    assert_eq!(resp.bot_id, Some("B1".to_string()));
    assert_eq!(resp.response_metadata.map(|m| m.next_cursor), Some("abc".to_string()));
    assert_eq!(resp.error, None);
}

#[test]
fn response_flag_encodings() {
    assert!(normalize_response(raw_response(Some(RawValue::Bool(true)), None)).unwrap().ok);
    assert!(normalize_response(raw_response(Some(RawValue::Integer(1)), None)).unwrap().ok);
    assert!(!normalize_response(raw_response(Some(RawValue::Bool(false)), None)).unwrap().ok);
    assert!(!normalize_response(raw_response(Some(text("0")), None)).unwrap().ok);
    assert!(!normalize_response(raw_response(Some(RawValue::Null), None)).unwrap().ok);
    assert!(!normalize_response(raw_response(None, None)).unwrap().ok);
    assert_eq!(
        normalize_response(raw_response(Some(RawValue::Array), None)).err(),
        Some(SlackError::MalformedResponse("Wrong type, expected boolean".to_string()))
    );
    let half = RawValue::Real { whole: 0, is_zero: false };
    assert!(normalize_response(raw_response(Some(half), None)).unwrap().ok);
    let zero = RawValue::Real { whole: 0, is_zero: true };
    assert!(!normalize_response(raw_response(Some(zero), None)).unwrap().ok);
    assert_eq!(
        normalize_response(raw_response(Some(RawValue::Object), None)).err(),
        Some(SlackError::MalformedResponse("Wrong type, expected boolean".to_string()))
    );
}

#[test]
fn envelope_into_result() {
    let ok = normalize_response(raw_response(Some(RawValue::Bool(true)), Some("ignored"))).unwrap();
    let back: SlackResponse = ok.into_result().expect("the flag is set");
    assert!(back.ok);
    assert_eq!(back.error, Some("ignored".to_string()));
    let failed = normalize_response(raw_response(Some(RawValue::Bool(false)), Some("not_in_channel"))).unwrap();
    assert_eq!(failed.into_result().err(), Some(SlackError::NotInChannel));
    let odd = normalize_response(raw_response(Some(RawValue::Bool(false)), Some("teapot"))).unwrap();
    assert_eq!(odd.into_result().err(), Some(SlackError::Unknown("teapot".to_string())));
    let silent = normalize_response(raw_response(Some(RawValue::Bool(false)), None)).unwrap();
    assert_eq!(silent.into_result().err(), Some(SlackError::Unknown(String::new())));
}

#[test]
fn receive_each_kind_of_reply() {
    assert_eq!(
        receive(Reply::Failed("connection reset".to_string())).err(),
        Some(SlackError::Client("connection reset".to_string()))
    );
    assert_eq!(
        receive(Reply::Garbled("expected value at line 1 column 1".to_string())).err(),
        Some(SlackError::MalformedResponse("expected value at line 1 column 1".to_string()))
    );
    assert_eq!(
        receive(Reply::Parsed(raw_response(Some(RawValue::Bool(false)), Some("invalid_auth")))).err(),
        Some(SlackError::InvalidAuth)
    );
    assert_eq!(
        receive(Reply::Parsed(raw_response(Some(RawValue::Object), Some("invalid_auth")))).err(),
        Some(SlackError::MalformedResponse("Wrong type, expected boolean".to_string()))
    );
    assert_eq!(
        receive(Reply::Parsed(raw_response(None, None))).err(),
        Some(SlackError::Unknown(String::new()))
    );
    let raw = RawResponse {
        user: Some("archivebot".to_string()),
        ..raw_response(Some(text("1")), None)
    };
    let auth = receive(Reply::Parsed(raw)).expect("upstream said ok");
    assert_eq!(auth.user, Some("archivebot".to_string()));
}
