use agent_tools::http::{HttpReply, HttpRequest, Method};
use agent_tools::json::Json;
use agent_tools::json_text::{parse_json, print_json};
use agent_tools::tools::result::{Admission, ToolOperation, ToolResult};
use agent_tools::tools::x_tool::{
    answer_of, clamp, handle_response, operation_of, read_usage, UsageData, XStep, XTool,
};

const SECOND: u128 = 1_000_000_000;

fn json(text: &str) -> Json {
    parse_json(text).unwrap()
}

fn all_actions() -> Vec<String> {
    [
        "list_tweets",
        "get_mentions",
        "search_tweets",
        "create_post",
        "reply_to_post",
        "follow_user",
        "unfollow_user",
        "get_usage",
    ]
    .iter()
    .map(|a| a.to_string())
    .collect()
}

fn test_tool() -> XTool {
    XTool::new(
        "test-bearer".into(),
        "test-access".into(),
        "123456".into(),
        all_actions(),
        None,
        80,
        false,
    )
}

fn read_only_tool() -> XTool {
    XTool::new(
        "test-bearer".into(),
        "test-access".into(),
        "123456".into(),
        vec!["list_tweets".into(), "get_mentions".into(), "search_tweets".into()],
        None,
        80,
        false,
    )
}

fn checking_tool(cap: Option<u64>) -> XTool {
    XTool::new("b".into(), "a".into(), "1".into(), all_actions(), cap, 80, true)
}

fn execute(tool: &XTool, args: &str) -> XStep {
    tool.execute_authorized(&json(args), Ok(()), 0)
}

fn done(step: XStep) -> ToolResult {
    match step {
        XStep::Done(result) => result,
        other => panic!("unexpected step: {other:?}"),
    }
}

fn sent(step: XStep) -> (String, HttpRequest) {
    match step {
        XStep::Send(action, request) => (action, request),
        other => panic!("unexpected step: {other:?}"),
    }
}

fn ok(body: &str) -> Result<HttpReply, String> {
    Ok(HttpReply { code: 200, status: "200 OK".into(), body: body.into() })
}

#[test]
fn tool_name_is_x() {
    let tool = test_tool();
    assert_eq!(tool.name(), "x");
}

#[test]
fn parameters_schema_has_required_action() {
    let tool = test_tool();
    let schema = tool.parameters_schema();
    let required = schema.get("required").unwrap().as_array().unwrap();
    assert!(required.iter().any(|v| v.as_str() == Some("action")));
}

#[test]
fn parameters_schema_defines_all_actions() {
    let tool = test_tool();
    let schema = tool.parameters_schema();
    let action = schema.get("properties").unwrap().get("action").unwrap();
    let actions = action.get("enum").unwrap().as_array().unwrap();
    let action_strs: Vec<&str> = actions.iter().filter_map(|v| v.as_str()).collect();
    assert!(action_strs.contains(&"list_tweets"));
    assert!(action_strs.contains(&"get_mentions"));
    assert!(action_strs.contains(&"search_tweets"));
    assert!(action_strs.contains(&"create_post"));
    assert!(action_strs.contains(&"reply_to_post"));
    assert!(action_strs.contains(&"follow_user"));
    assert!(action_strs.contains(&"unfollow_user"));
    assert!(action_strs.contains(&"get_usage"));
}

#[test]
fn execute_missing_action_returns_error() {
    let tool = test_tool();
    let result = done(execute(&tool, "{}"));
    assert!(!result.success);
    assert!(result.error.as_deref().unwrap().contains("action"));
}

#[test]
fn execute_unknown_action_returns_error() {
    let tool = test_tool();
    let result = done(execute(&tool, r#"{"action": "invalid"}"#));
    assert!(!result.success);
    assert!(result.error.as_deref().unwrap().contains("Unknown action"));
}

#[test]
fn execute_disallowed_action_returns_error() {
    let tool = read_only_tool();
    let result = done(execute(&tool, r#"{"action": "create_post", "text": "hello"}"#));
    assert!(!result.success);
    assert!(result.error.as_deref().unwrap().contains("not enabled"));
}

#[test]
fn execute_list_tweets_missing_user_id_returns_error() {
    let tool = XTool::new(
        "test-bearer".into(),
        "test-access".into(),
        String::new(), // no default user_id
        vec!["list_tweets".into()],
        None,
        80,
        false,
    );
    let result = done(execute(&tool, r#"{"action": "list_tweets"}"#));
    assert!(!result.success);
    assert!(result.error.as_deref().unwrap().contains("user_id"));
}

#[test]
fn execute_search_tweets_missing_query_returns_error() {
    let tool = test_tool();
    let result = done(execute(&tool, r#"{"action": "search_tweets"}"#));
    assert!(!result.success);
    assert!(result.error.as_deref().unwrap().contains("query"));
}

#[test]
fn execute_create_post_missing_text_returns_error() {
    let tool = test_tool();
    let result = done(execute(&tool, r#"{"action": "create_post"}"#));
    assert!(!result.success);
    assert!(result.error.as_deref().unwrap().contains("text"));
}

#[test]
fn execute_reply_to_post_missing_tweet_id_returns_error() {
    let tool = test_tool();
    let result = done(execute(&tool, r#"{"action": "reply_to_post", "text": "hi"}"#));
    assert!(!result.success);
    assert!(result.error.as_deref().unwrap().contains("tweet_id"));
}

#[test]
fn execute_reply_to_post_missing_text_returns_error() {
    let tool = test_tool();
    let result = done(execute(&tool, r#"{"action": "reply_to_post", "tweet_id": "123"}"#));
    assert!(!result.success);
    assert!(result.error.as_deref().unwrap().contains("text"));
}

#[test]
fn execute_follow_user_missing_target_returns_error() {
    let tool = test_tool();
    let result = done(execute(&tool, r#"{"action": "follow_user"}"#));
    assert!(!result.success);
    assert!(result.error.as_deref().unwrap().contains("target_user_id"));
}

#[test]
fn execute_unfollow_user_missing_target_returns_error() {
    let tool = test_tool();
    let result = done(execute(&tool, r#"{"action": "unfollow_user"}"#));
    assert!(!result.success);
    assert!(result.error.as_deref().unwrap().contains("target_user_id"));
}

#[test]
fn execute_follow_user_missing_config_user_id_returns_error() {
    let tool = XTool::new(
        "test-bearer".into(),
        "test-access".into(),
        String::new(), // no configured user_id
        vec!["follow_user".into()],
        None,
        80,
        false,
    );
    let result = done(execute(&tool, r#"{"action": "follow_user", "target_user_id": "789"}"#));
    assert!(!result.success);
    assert!(result.error.as_deref().unwrap().contains("x.user_id"));
}

#[test]
fn x_refusals_are_exact() {
    let tool = read_only_tool();
    let error = |args: &str| done(execute(&tool, args)).error.unwrap();
    assert_eq!(error("[]"), "Missing required parameter: action");
    assert_eq!(
        error(r#"{"action": "invalid"}"#),
        "Unknown action: invalid. Valid actions: list_tweets, get_mentions, search_tweets, \
         create_post, reply_to_post, follow_user, unfollow_user, get_usage"
    );
    assert_eq!(
        error(r#"{"action": "get_usage"}"#),
        "Action 'get_usage' is not enabled. Add it to x.allowed_actions in config.toml. \
         Currently allowed: list_tweets, get_mentions, search_tweets"
    );
    let step = tool.execute_authorized(
        &json(r#"{"action": "list_tweets"}"#),
        Err("read only".into()),
        0,
    );
    assert_eq!(done(step).error.as_deref(), Some("read only"));
}

#[test]
fn x_operations_are_told_apart() {
    assert_eq!(operation_of("list_tweets"), Some(ToolOperation::Read));
    assert_eq!(operation_of("get_usage"), Some(ToolOperation::Read));
    assert_eq!(operation_of("follow_user"), Some(ToolOperation::Act));
    assert_eq!(operation_of("like_post"), None);
    assert!(matches!(
        test_tool().execute_start(&json(r#"{"action": "create_post"}"#)),
        Admission::Granted(ToolOperation::Act)
    ));
}

#[test]
fn read_requests_are_exact() {
    let tool = test_tool();
    let request = |args: &str| sent(execute(&tool, args)).1;
    let tweets = request(r#"{"action": "list_tweets", "user_id": "42", "max_results": 3}"#);
    assert_eq!(tweets.method, Method::Get);
    assert_eq!(tweets.timeout_secs, Some(30));
    assert_eq!(
        tweets.url,
        "https://api.x.com/2/users/42/tweets?max_results=5\
         &tweet.fields=created_at,public_metrics,author_id,conversation_id"
    );
    assert_eq!(
        tweets.headers,
        vec![("Authorization".to_string(), "Bearer test-bearer".to_string())]
    );
    assert_eq!(
        request(r#"{"action": "get_mentions", "max_results": 1000}"#).url,
        "https://api.x.com/2/users/123456/mentions?max_results=100\
         &tweet.fields=created_at,public_metrics,author_id,conversation_id"
    );
    assert_eq!(
        request(
            r#"{"action": "search_tweets", "query": "rust & é", "sort_order": "recency",
                "start_time": "2026-03-20T00:00:00Z", "end_time": "2026-03-23T23:59:59Z"}"#
        )
        .url,
        "https://api.x.com/2/tweets/search/recent?query=rust%20%26%20%C3%A9&max_results=10\
         &tweet.fields=created_at,public_metrics,author_id,conversation_id\
         &expansions=author_id&user.fields=username,name&sort_order=recency\
         &start_time=2026-03-20T00%3A00%3A00Z&end_time=2026-03-23T23%3A59%3A59Z"
    );
    assert_eq!(
        request(r#"{"action": "get_usage", "days": 365}"#).url,
        "https://api.x.com/2/usage/tweets?days=90\
         &usage.fields=project_usage,project_cap,cap_reset_day,daily_project_usage"
    );
}

#[test]
fn write_requests_are_exact() {
    let tool = test_tool();
    let request = |args: &str| sent(execute(&tool, args)).1;
    let post = request(r#"{"action": "create_post", "text": "hi"}"#);
    assert_eq!(post.method, Method::Post);
    assert_eq!(post.url, "https://api.x.com/2/tweets");
    assert_eq!(
        post.headers,
        vec![
            ("Authorization".to_string(), "Bearer test-access".to_string()),
            ("Content-Type".to_string(), "application/json".to_string())
        ]
    );
    assert_eq!(print_json(post.body.as_ref().unwrap()), r#"{"text":"hi"}"#);
    let reply = request(r#"{"action": "reply_to_post", "text": "hi", "tweet_id": "9"}"#);
    assert_eq!(
        print_json(reply.body.as_ref().unwrap()),
        r#"{"reply":{"in_reply_to_tweet_id":"9"},"text":"hi"}"#
    );
    let follow = request(r#"{"action": "follow_user", "target_user_id": "7"}"#);
    assert_eq!(follow.url, "https://api.x.com/2/users/123456/following");
    assert_eq!(print_json(follow.body.as_ref().unwrap()), r#"{"target_user_id":"7"}"#);
    let unfollow = request(r#"{"action": "unfollow_user", "target_user_id": "7"}"#);
    assert_eq!(unfollow.method, Method::Delete);
    assert_eq!(unfollow.url, "https://api.x.com/2/users/123456/following/7");
    assert!(unfollow.body.is_none());
}

#[test]
fn tokens_have_to_fit_a_header() {
    let tool = XTool::new(
        "bad\ntoken".into(),
        "bad\u{7f}".into(),
        "1".into(),
        all_actions(),
        None,
        80,
        true,
    );
    assert_eq!(
        done(execute(&tool, r#"{"action": "get_usage"}"#)).error.as_deref(),
        Some("Invalid X bearer token header value: failed to parse header value")
    );
    // Usage cannot be asked for either, which does not hold the action up.
    assert_eq!(
        done(execute(&tool, r#"{"action": "create_post", "text": "x"}"#)).error.as_deref(),
        Some("Invalid X access token header value: failed to parse header value")
    );
    let odd = XTool::new("tab\tü".into(), "a".into(), "1".into(), all_actions(), None, 80, false);
    assert!(odd.bearer_auth().is_ok());
    assert_eq!(odd.oauth_auth().unwrap().len(), 2);
}

#[test]
fn usage_is_fetched_before_an_action_and_kept() {
    let mut tool = checking_tool(Some(100));
    let args = json(r#"{"action": "create_post", "text": "x"}"#);
    let request = match tool.execute_authorized(&args, Ok(()), 0) {
        XStep::FetchUsage(request) => request,
        other => panic!("unexpected step: {other:?}"),
    };
    assert_eq!(
        request.url,
        "https://api.x.com/2/usage/tweets?usage.fields=project_usage,project_cap,cap_reset_day"
    );
    let body = r#"{"data": {"project_usage": 99, "project_cap": 500, "cap_reset_day": 12}}"#;
    let step = tool.execute_usage(&args, ok(body), 5 * SECOND);
    assert_eq!(sent(step).0, "create_post");
    let usage = UsageData { project_usage: 99, project_cap: 500, cap_reset_day: 12 };
    assert_eq!(tool.cached_usage(), Some(usage));
    assert_eq!(tool.fresh_usage(305 * SECOND - 1), Some(usage));
    assert_eq!(tool.fresh_usage(305 * SECOND), None);
    assert_eq!(tool.fresh_usage(0), Some(usage));
    assert!(matches!(tool.execute_authorized(&args, Ok(()), 6 * SECOND), XStep::Send(..)));
    assert!(matches!(
        tool.execute_authorized(&args, Ok(()), 305 * SECOND),
        XStep::FetchUsage(_)
    ));
    // Reading needs no usage data.
    let read = json(r#"{"action": "list_tweets"}"#);
    assert!(matches!(tool.execute_authorized(&read, Ok(()), 305 * SECOND), XStep::Send(..)));
}

#[test]
fn a_refused_action_asks_for_no_usage() {
    let args = json(r#"{"action": "create_post", "text": "x"}"#);
    let tool = checking_tool(Some(100));
    assert!(matches!(tool.execute_authorized(&args, Ok(()), 0), XStep::FetchUsage(_)));
    assert_eq!(
        done(tool.execute_authorized(&args, Err("read-only".into()), 0)).error.as_deref(),
        Some("read-only")
    );
    // An action that is not enabled is not sent after usage data either.
    let mut closed = XTool::new("b".into(), "a".into(), "1".into(), vec![], None, 80, true);
    assert!(matches!(closed.execute_authorized(&args, Ok(()), 0), XStep::Done(_)));
    assert!(matches!(closed.execute_usage(&args, ok("{}"), 0), XStep::Done(_)));
}

#[test]
fn caps_stop_actions() {
    let args = json(r#"{"action": "create_post", "text": "x"}"#);
    let mut local = checking_tool(Some(100));
    let body = r#"{"data": {"project_usage": 100, "project_cap": 500}}"#;
    assert_eq!(
        done(local.execute_usage(&args, ok(body), 0)).error.as_deref(),
        Some(
            "X API monthly tweet cap reached: 100/100 tweets used (local limit). \
             Increase x.usage.monthly_tweet_cap in config to allow more."
        )
    );
    // The cap still holds from what was kept.
    assert!(matches!(local.execute_authorized(&args, Ok(()), 1), XStep::Done(_)));
    let mut project = checking_tool(None);
    let body = r#"{"data": {"project_usage": 500, "project_cap": 500}}"#;
    assert_eq!(
        done(project.execute_usage(&args, ok(body), 0)).error.as_deref(),
        Some(
            "X API project cap reached: 500/500 tweets used. \
             Wait for cap reset or upgrade your plan."
        )
    );
    let mut unlimited = checking_tool(None);
    let body = r#"{"data": {"project_usage": 500}}"#;
    assert!(matches!(unlimited.execute_usage(&args, ok(body), 0), XStep::Send(..)));
}

#[test]
fn a_failed_usage_check_does_not_block() {
    let mut tool = checking_tool(Some(0));
    let args = json(r#"{"action": "create_post", "text": "x"}"#);
    let failed = Ok(HttpReply { code: 503, status: "503".into(), body: "".into() });
    assert!(matches!(tool.execute_usage(&args, failed, 0), XStep::Send(..)));
    assert!(matches!(tool.execute_usage(&args, Err("no route".into()), 0), XStep::Send(..)));
    assert!(matches!(tool.execute_usage(&args, ok("<html>"), 0), XStep::Send(..)));
    assert_eq!(tool.cached_usage(), None);
    assert_eq!(
        done(tool.execute_usage(&args, ok("{}"), 0)).error.as_deref(),
        Some(
            "X API monthly tweet cap reached: 0/0 tweets used (local limit). \
             Increase x.usage.monthly_tweet_cap in config to allow more."
        )
    );
}

#[test]
fn usage_data_is_read_with_defaults() {
    assert_eq!(
        read_usage(&json("{}")),
        UsageData { project_usage: 0, project_cap: 0, cap_reset_day: 1 }
    );
    assert_eq!(
        read_usage(&json(r#"{"data": {"project_usage": 3, "cap_reset_day": 300}}"#)),
        UsageData { project_usage: 3, project_cap: 0, cap_reset_day: 1 }
    );
    let tool = checking_tool(Some(7));
    let usage = UsageData { project_usage: 1, project_cap: 9, cap_reset_day: 1 };
    assert_eq!(tool.effective_cap(&usage), 7);
    assert_eq!(checking_tool(None).effective_cap(&usage), 9);
    assert_eq!(tool.warn_at_percent(), 80);
}

#[test]
fn x_replies_are_printed_or_reported() {
    let tool = test_tool();
    let result = tool.execute_reply("list_tweets", ok(r#"{"data":[0.5,-3]}"#));
    assert!(result.success);
    assert_eq!(result.output, "{\n  \"data\": [\n    0.5,\n    -3\n  ]\n}");
    let long = "é".repeat(501);
    let reply = Ok(HttpReply { code: 429, status: "429 Too Many Requests".into(), body: long });
    assert_eq!(
        tool.execute_reply("create_post", reply).error.unwrap(),
        format!("X create_post failed (429 Too Many Requests): {}...", "é".repeat(500))
    );
    assert_eq!(
        tool.execute_reply("get_usage", ok("nope")).error.as_deref(),
        Some("error decoding response body")
    );
    assert_eq!(handle_response("x", Err("no route".into())).unwrap_err(), "no route");
    assert_eq!(
        answer_of("x", &ok("ignored"), None).unwrap_err(),
        "error decoding response body"
    );
}

#[test]
fn clamping_brings_into_range() {
    assert_eq!(clamp(0, 5, 100), 5);
    assert_eq!(clamp(7, 5, 100), 7);
    assert_eq!(clamp(101, 5, 100), 100);
}
