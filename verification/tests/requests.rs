use archive_bot::bot::ArchiveBot;
use archive_bot::config::Config;
use archive_bot::request::{
    api_url, history_call, join_call, list_channels_call, post_message_call, ApiCall,
};

fn owned(pairs: &[(&str, &str)]) -> Vec<(String, String)> {
    pairs.iter().map(|(k, v)| (k.to_string(), v.to_string())).collect()
}

#[test]
fn list_call_for_the_first_page() {
    let call = list_channels_call("");
    assert_eq!(call.method, "conversations.list");
    assert_eq!(
        call.params,
        owned(&[
            ("exclude_archived", "1"),
            ("exclude_members", "0"),
            ("limit", "1000"),
            ("types", "public_channel,private_channel"),
        ])
    );
}

#[test]
fn list_call_at_a_cursor() {
    let call = list_channels_call("dGVhbTpDMDYxRkE1UEI=");
    assert_eq!(call.method, "conversations.list");
    assert_eq!(
        call.params,
        owned(&[
            ("exclude_archived", "1"),
            ("exclude_members", "0"),
            ("limit", "1000"),
            ("types", "public_channel,private_channel"),
            ("cursor", "dGVhbTpDMDYxRkE1UEI="),
        ])
    );
}

#[test]
fn history_call_writes_the_limit_in_decimal() {
    let call = history_call("C123", 10);
    assert_eq!(call.method, "conversations.history");
    assert_eq!(call.params, owned(&[("channel", "C123"), ("limit", "10")]));
    assert_eq!(history_call("C123", 0).params[1].1, "0");
    assert_eq!(history_call("C123", 1).params[1].1, "1");
    assert_eq!(history_call("C123", u16::MAX).params[1].1, "65535");
}

#[test]
fn join_call_names_the_channel() {
    let call = join_call("C123");
    assert_eq!(call, ApiCall { method: "conversations.join".to_string(), params: owned(&[("channel", "C123")]) });
}

#[test]
fn post_call_switches_markup_on() {
    let call = post_message_call("C123", "Testing, 1 2 3. :robot_face:");
    assert_eq!(call.method, "chat.postMessage");
    assert_eq!(
        call.params,
        owned(&[("channel", "C123"), ("text", "Testing, 1 2 3. :robot_face:"), ("mrkdwn", "1")])
    );
}

#[test]
fn url_of_a_method() {
    assert_eq!(api_url("auth.test"), "https://slack.com/api/auth.test");
    assert_eq!(api_url(""), "https://slack.com/api/");
}

#[test]
fn form_puts_the_token_first() {
    let bot = ArchiveBot::new(Config { token: "xoxb-1".to_string(), ..Config::default() });
    let form = bot.form(history_call("C123", 10));
    assert_eq!(form, owned(&[("token", "xoxb-1"), ("channel", "C123"), ("limit", "10")]));
    let form = bot.form(ApiCall { method: "auth.test".to_string(), params: vec![] });
    assert_eq!(form, owned(&[("token", "xoxb-1")]));
}
