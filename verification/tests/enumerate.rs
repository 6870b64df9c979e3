use archive_bot::channel::Channel;
use archive_bot::enumerate::{get_channel_data, merge_channel, merge_page, Enumeration, Progress};
use archive_bot::error::SlackError;
use archive_bot::request::list_channels_call;
use archive_bot::response::{SlackResponse, SlackResponseMeta};

fn channel(id: &str, name: &str) -> Channel {
    Channel {
        id: id.to_string(),
        name: name.to_string(),
        is_channel: true,
        is_group: false,
        is_im: false,
        is_archived: false,
        is_general: false,
        unlinked: false,
        is_read_only: false,
        is_shared: false,
        is_ext_shared: false,
        is_org_shared: false,
        is_pending_ext_shared: false,
        is_member: false,
        is_private: false,
        is_mpim: false,
        num_members: 1,
        creator: None,
        created: None,
        last_read: None,
        name_normalized: None,
        pending_shared: None,
        previous_names: None,
    }
}

fn page(channels: Option<Vec<Channel>>, cursor: Option<&str>) -> SlackResponse {
    SlackResponse {
        channels,
        messages: None,
        url: None,
        team: None,
        user: None,
        team_id: None,
        user_id: None,
        bot_id: None,
        response_metadata: cursor.map(|c| SlackResponseMeta { next_cursor: c.to_string() }),
        error: None,
        ok: true,
    }
}

fn ids(channels: &Vec<Channel>) -> Vec<String> {
    channels.iter().map(|c| c.id.clone()).collect()
}

fn names(channels: &Vec<Channel>) -> Vec<String> {
    channels.iter().map(|c| c.name.clone()).collect()
}

/// Runs an enumeration against a scripted source; returns it with the cursors asked at.
fn run(mut source: Vec<Result<SlackResponse, SlackError>>) -> (Enumeration, Vec<String>) {
    source.reverse();
    let mut asked: Vec<String> = vec![];
    let mut state = Enumeration::start();
    while state.progress == Progress::Fetching {
        asked.push(state.cursor.clone());
        let answer = source.pop().expect("the source was asked for a page it does not have");
        state = state.on_page(answer);
    }
    (state, asked)
}

#[test]
fn pagination_ends_at_the_empty_cursor() {
    let source = vec![
        Ok(page(Some(vec![channel("C1", "a"), channel("C2", "b")]), Some("p2"))),
        Ok(page(Some(vec![channel("C3", "c")]), Some("p3"))),
        Ok(page(Some(vec![channel("C4", "d"), channel("C5", "e")]), Some("p4"))),
        Ok(page(Some(vec![channel("C6", "f")]), Some(""))),
        Ok(page(Some(vec![channel("C7", "never asked for")]), Some(""))),
    ];
    let (state, asked) = run(source);
    assert_eq!(asked.len(), 4);
    assert_eq!(asked, vec!["", "p2", "p3", "p4"]);
    assert_eq!(state.progress, Progress::Finished);
    assert_eq!(ids(&state.channels), vec!["C1", "C2", "C3", "C4", "C5", "C6"]);
    let channels = state.into_channels().expect("the enumeration has finished");
    assert_eq!(ids(&channels), vec!["C1", "C2", "C3", "C4", "C5", "C6"]);
}

#[test]
fn single_page_without_metadata_finishes() {
    let (state, asked) = run(vec![Ok(page(Some(vec![channel("C1", "a")]), None))]);
    assert_eq!(asked, vec![""]);
    assert_eq!(state.progress, Progress::Finished);
    assert_eq!(ids(&state.channels), vec!["C1"]);
    assert!(!state.first_page);
}

#[test]
fn duplicate_identifier_keeps_the_last_seen() {
    let source = vec![
        Ok(page(Some(vec![channel("C1", "old-name"), channel("C2", "b")]), Some("p2"))),
        Ok(page(Some(vec![channel("C3", "c"), channel("C1", "new-name")]), Some(""))),
    ];
    let (state, _) = run(source);
    assert_eq!(ids(&state.channels), vec!["C1", "C2", "C3"]);
    assert_eq!(names(&state.channels), vec!["new-name", "b", "c"]);
}

#[test]
fn duplicate_within_one_page() {
    let source =
        vec![Ok(page(Some(vec![channel("C1", "x"), channel("C1", "y"), channel("C1", "z")]), None))];
    let (state, _) = run(source);
    assert_eq!(ids(&state.channels), vec!["C1"]);
    assert_eq!(names(&state.channels), vec!["z"]);
}

#[test]
fn first_page_failure_aborts() {
    for failure in [
        SlackError::RateLimited,
        SlackError::Client("down".to_string()),
        SlackError::MalformedResponse("eof".to_string()),
        SlackError::Unknown("odd".to_string()),
        SlackError::InvalidAuth,
    ] {
        let (state, asked) = run(vec![Err(failure)]);
        assert_eq!(asked.len(), 1);
        assert_eq!(state.progress, Progress::Aborted);
        assert!(state.channels.is_empty());
    }
}

#[test]
fn later_failure_keeps_what_was_gathered() {
    let source = vec![
        Ok(page(Some(vec![channel("C1", "a")]), Some("p2"))),
        Err(SlackError::RateLimited),
        Ok(page(Some(vec![channel("C9", "never asked for")]), None)),
    ];
    let (state, asked) = run(source);
    assert_eq!(asked, vec!["", "p2"]);
    assert_eq!(state.progress, Progress::Finished);
    assert_eq!(ids(&state.channels), vec!["C1"]);
}

#[test]
fn invalid_auth_on_a_later_page_aborts() {
    let source =
        vec![Ok(page(Some(vec![channel("C1", "a")]), Some("p2"))), Err(SlackError::InvalidAuth)];
    let (state, _) = run(source);
    assert_eq!(state.progress, Progress::Aborted);
}

#[test]
fn response_without_channels_ends_the_enumeration() {
    let source = vec![
        Ok(page(Some(vec![channel("C1", "a")]), Some("p2"))),
        Ok(page(None, Some("p3"))),
    ];
    let (state, asked) = run(source);
    assert_eq!(asked.len(), 2);
    assert_eq!(state.progress, Progress::Finished);
    assert_eq!(ids(&state.channels), vec!["C1"]);
    assert_eq!(state.cursor, "");
}

#[test]
fn finished_enumeration_takes_no_more_pages() {
    let (state, _) = run(vec![Ok(page(Some(vec![channel("C1", "a")]), None))]);
    let state = state.on_page(Ok(page(Some(vec![channel("C2", "b")]), Some("p2"))));
    assert_eq!(state.progress, Progress::Finished);
    assert_eq!(ids(&state.channels), vec!["C1"]);
}

#[test]
fn channel_data_of_each_outcome() {
    let (channels, cursor) =
        get_channel_data(Ok(page(Some(vec![channel("C1", "a")]), Some("next"))));
    assert_eq!(ids(&channels), vec!["C1"]);
    assert_eq!(cursor, "next");
    let (channels, cursor) = get_channel_data(Ok(page(Some(vec![]), None)));
    assert!(channels.is_empty());
    assert_eq!(cursor, "");
    let (channels, cursor) = get_channel_data(Ok(page(None, Some("next"))));
    assert!(channels.is_empty());
    assert_eq!(cursor, "");
    let (channels, cursor) = get_channel_data(Err(SlackError::Internal));
    assert!(channels.is_empty());
    assert_eq!(cursor, "");
}

#[test]
fn merge_replaces_in_place_or_appends() {
    let mut gathered = vec![channel("C1", "a"), channel("C2", "b"), channel("C3", "c")];
    merge_channel(&mut gathered, channel("C2", "B"));
    assert_eq!(names(&gathered), vec!["a", "B", "c"]);
    merge_channel(&mut gathered, channel("C4", "d"));
    assert_eq!(names(&gathered), vec!["a", "B", "c", "d"]);
    merge_page(&mut gathered, vec![channel("C5", "e"), channel("C1", "A"), channel("C5", "E")]);
    assert_eq!(ids(&gathered), vec!["C1", "C2", "C3", "C4", "C5"]);
    assert_eq!(names(&gathered), vec!["A", "B", "c", "d", "E"]);
    merge_page(&mut gathered, vec![]);
    assert_eq!(gathered.len(), 5);
}

#[test]
fn page_requests_follow_the_cursor() {
    let mut state = Enumeration::start();
    let first = list_channels_call(&state.cursor);
    assert_eq!(first.params.len(), 4);
    state = state.on_page(Ok(page(Some(vec![channel("C1", "a")]), Some("dGVhbTpD"))));
    let second = list_channels_call(&state.cursor);
    assert_eq!(second.params[4], ("cursor".to_string(), "dGVhbTpD".to_string()));
}

#[test]
fn page_call_while_fetching_only() {
    let state = Enumeration::start();
    let call = state.page_call().expect("the first page is to be asked for");
    assert_eq!(call.method, "conversations.list");
    assert_eq!(call.params.len(), 4);
    let state = state.on_page(Ok(page(Some(vec![channel("C1", "a")]), Some("p2"))));
    let call = state.page_call().expect("the page named a page to follow");
    assert_eq!(call.params.last(), Some(&("cursor".to_string(), "p2".to_string())));
    let state = state.on_page(Ok(page(Some(vec![channel("C2", "b")]), None)));
    assert!(state.page_call().is_none());
    let aborted = Enumeration::start().on_page(Err(SlackError::InvalidAuth));
    assert!(aborted.page_call().is_none());
}

#[test]
fn channels_only_of_a_finished_enumeration() {
    assert!(Enumeration::start().into_channels().is_none());
    let going = Enumeration::start().on_page(Ok(page(Some(vec![channel("C1", "a")]), Some("p2"))));
    assert!(going.into_channels().is_none());
    let aborted = Enumeration::start().on_page(Err(SlackError::Internal));
    assert!(aborted.into_channels().is_none());
    let late = Enumeration::start()
        .on_page(Ok(page(Some(vec![channel("C1", "a")]), Some("p2"))))
        .on_page(Err(SlackError::InvalidAuth));
    assert_eq!(late.progress, Progress::Aborted);
    assert!(late.into_channels().is_none());
    let soft = Enumeration::start()
        .on_page(Ok(page(Some(vec![channel("C1", "a")]), Some("p2"))))
        .on_page(Err(SlackError::RateLimited));
    assert_eq!(soft.into_channels().map(|c| c.len()), Some(1));
}
