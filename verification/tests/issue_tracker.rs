use agent_tools::json::Json;
use agent_tools::json_text::{parse_json, print_json};
use agent_tools::tools::issue_tracker::beads::{answer_exit, parse_output, BdCommand, BdEnd, BeadsProvider};
use agent_tools::tools::issue_tracker::types::{IssueCommentInput, IssueListParams};
use agent_tools::tools::issue_tracker::{
    operation_of, parse_priority, IssueCall, IssueStep, IssueTrackerTool,
};
use agent_tools::tools::policy::{PolicyAnswers, Question};
use agent_tools::tools::result::ToolOperation;

const ACTIONS: [&str; 17] = [
    "epic.create",
    "epic.get",
    "epic.update",
    "epic.delete",
    "issue.create",
    "issue.get",
    "issue.update",
    "issue.delete",
    "issue.next",
    "issue.assign",
    "issue.list",
    "dep.add",
    "dep.remove",
    "dep.tree",
    "sync.push",
    "sync.pull",
    "sync.status",
];

fn json(text: &str) -> Json {
    parse_json(text).unwrap()
}

fn tool() -> IssueTrackerTool {
    let mut actions: Vec<String> = ACTIONS.iter().map(|a| a.to_string()).collect();
    actions.push("issue.burn".into());
    IssueTrackerTool::new(actions)
}

fn permitted() -> PolicyAnswers {
    PolicyAnswers { rate_limited: Some(false), recorded: Some(true), verdict: Some(Ok(())) }
}

fn call(args: &str) -> IssueCall {
    match tool().execute(&json(args), &permitted()) {
        IssueStep::Call(call) => call,
        other => panic!("unexpected step: {other:?}"),
    }
}

fn provider() -> BeadsProvider {
    BeadsProvider::new("bd".into(), None, None, 30)
}

fn command(args: &str) -> BdCommand {
    provider().command(&call(args))
}

fn error(step: IssueStep) -> String {
    match step {
        IssueStep::Done(result) => {
            assert!(!result.success);
            assert_eq!(result.output, "");
            result.error.unwrap()
        }
        other => panic!("unexpected step: {other:?}"),
    }
}

fn exited(success: bool, status: &str, stdout: &[u8], stderr: &[u8]) -> BdEnd {
    BdEnd::Exited {
        success,
        status: status.into(),
        stdout: stdout.to_vec(),
        stderr: stderr.to_vec(),
    }
}

#[test]
fn issue_policy_is_asked_in_order() {
    let tool = tool();
    let args = json(r#"{"action": "issue.next"}"#);
    let mut answers = PolicyAnswers::none();
    let asked = |answers: &PolicyAnswers| match tool.execute(&args, answers) {
        IssueStep::Ask(question) => question,
        other => panic!("unexpected step: {other:?}"),
    };
    assert_eq!(asked(&answers), Question::RateLimited);
    answers.rate_limited = Some(false);
    assert_eq!(asked(&answers), Question::Record);
    answers.recorded = Some(true);
    assert_eq!(asked(&answers), Question::Enforce(ToolOperation::Read));
    answers.verdict = Some(Err("no".into()));
    assert_eq!(error(tool.execute(&args, &answers)), "no");
    answers.rate_limited = Some(true);
    assert_eq!(
        error(tool.execute(&args, &answers)),
        "Rate limit exceeded for issue_tracker tool."
    );
}

#[test]
fn issue_refusals_are_exact() {
    let tool = tool();
    match tool.execute(&json(r#"{"action": null}"#), &permitted()) {
        IssueStep::Failed(error) => assert_eq!(error, "missing required parameter: action"),
        other => panic!("unexpected step: {other:?}"),
    }
    assert_eq!(
        error(tool.execute(&json(r#"{"action": "epic.burn"}"#), &permitted())),
        "action 'epic.burn' is not in the allowed_actions list. \
         Update [issue_tracker].allowed_actions in config to enable it."
    );
    assert_eq!(
        error(tool.execute(&json(r#"{"action": "issue.burn"}"#), &permitted())),
        "unknown action: issue.burn"
    );
    assert!(tool.is_action_allowed("issue.burn"));
    assert!(!tool.is_action_allowed("epic.burn"));
}

#[test]
fn issue_missing_parameters_are_reported() {
    let message = |args: &str| error(tool().execute(&json(args), &permitted()));
    for (action, missing) in [
        ("epic.create", "title"),
        ("epic.get", "epic_id"),
        ("epic.update", "epic_id"),
        ("epic.delete", "epic_id"),
        ("issue.create", "title"),
        ("issue.get", "issue_id"),
        ("issue.update", "issue_id"),
        ("issue.delete", "issue_id"),
        ("issue.assign", "issue_id"),
        ("dep.add", "from_id"),
        ("dep.remove", "from_id"),
        ("dep.tree", "issue_id"),
    ] {
        assert_eq!(
            message(&format!(r#"{{"action": "{action}"}}"#)),
            format!("missing required parameter: {missing}")
        );
    }
    assert_eq!(
        message(r#"{"action": "issue.assign", "issue_id": "i"}"#),
        "missing required parameter: assignee"
    );
    assert_eq!(
        message(r#"{"action": "dep.add", "from_id": "i"}"#),
        "missing required parameter: to_id"
    );
}

#[test]
fn issue_operations_are_told_apart() {
    for action in ACTIONS {
        let reads = matches!(
            action,
            "epic.get" | "issue.get" | "issue.next" | "issue.list" | "dep.tree" | "sync.status"
        );
        assert_eq!(operation_of(action) == ToolOperation::Read, reads);
    }
    assert_eq!(operation_of("anything"), ToolOperation::Act);
}

#[test]
fn issue_schema_lists_all_actions() {
    let schema = tool().parameters_schema();
    let properties = schema.get("properties").unwrap();
    let listed: Vec<&str> = properties
        .get("action")
        .unwrap()
        .get("enum")
        .unwrap()
        .as_array()
        .unwrap()
        .iter()
        .filter_map(|v| v.as_str())
        .collect();
    assert_eq!(listed, ACTIONS);
    assert_eq!(
        print_json(properties.get("priority").unwrap()),
        r#"{"description":"Priority level (1 = highest, 5 = lowest).","maximum":5,"minimum":1,"type":"integer"}"#
    );
    assert_eq!(tool().name(), "issue_tracker");
    assert!(tool().description().ends_with("distributed sync."));
}

#[test]
fn commands_are_exact() {
    let args = |text: &str| command(text).args;
    assert_eq!(
        args(
            r#"{"action": "issue.create", "title": "T; rm -rf /", "parent": "e", "priority": 2,
                "label": "l", "assignee": "a", "deps": "x,y"}"#
        ),
        [
            "create",
            "T; rm -rf /",
            "--parent",
            "e",
            "--priority",
            "2",
            "--label",
            "l",
            "--assignee",
            "a",
            "--deps",
            "x,y",
            "--json"
        ]
    );
    assert_eq!(
        args(
            r#"{"action": "issue.update", "issue_id": "i", "title": "T", "priority": 999,
                "status": "open", "label": "l", "assignee": "a"}"#
        ),
        [
            "update",
            "i",
            "--title",
            "T",
            "--priority",
            "255",
            "--status",
            "open",
            "--label",
            "l",
            "--assignee",
            "a",
            "--json"
        ]
    );
    assert_eq!(
        args(
            r#"{"action": "issue.list", "status": "open", "priority": 1, "assignee": "a",
                "parent": "e"}"#
        ),
        [
            "list",
            "--status",
            "open",
            "--priority",
            "1",
            "--assignee",
            "a",
            "--parent",
            "e",
            "--json"
        ]
    );
    assert_eq!(args(r#"{"action": "epic.get", "epic_id": "e"}"#), ["show", "e", "--json"]);
    assert_eq!(args(r#"{"action": "issue.get", "issue_id": "i"}"#), ["show", "i", "--json"]);
    assert_eq!(
        args(r#"{"action": "epic.update", "epic_id": "e", "status": "closed"}"#),
        ["update", "e", "--status", "closed", "--json"]
    );
    assert_eq!(
        args(r#"{"action": "epic.delete", "epic_id": "e"}"#),
        ["close", "e", "--reason", "deleted via issue_tracker tool", "--json"]
    );
    assert_eq!(
        args(r#"{"action": "issue.delete", "issue_id": "i", "reason": "done"}"#),
        ["close", "i", "--reason", "done", "--json"]
    );
    assert_eq!(args(r#"{"action": "issue.next"}"#), ["ready", "--json"]);
    assert_eq!(
        args(r#"{"action": "issue.assign", "issue_id": "i", "assignee": "a"}"#),
        ["update", "i", "--assignee", "a", "--json"]
    );
    assert_eq!(
        args(r#"{"action": "dep.add", "from_id": "f", "to_id": "t"}"#),
        ["dep", "add", "f", "t", "--type", "blocks", "--json"]
    );
    assert_eq!(
        args(r#"{"action": "dep.add", "from_id": "f", "to_id": "t", "dep_type": "relates_to"}"#),
        ["dep", "add", "f", "t", "--type", "relates_to", "--json"]
    );
    assert_eq!(
        args(r#"{"action": "dep.remove", "from_id": "f", "to_id": "t"}"#),
        ["dep", "remove", "f", "t", "--json"]
    );
    assert_eq!(
        args(r#"{"action": "dep.tree", "issue_id": "i"}"#),
        ["dep", "tree", "i", "--json"]
    );
    assert_eq!(args(r#"{"action": "sync.push"}"#), ["dolt", "push", "--json"]);
    assert_eq!(args(r#"{"action": "sync.pull"}"#), ["dolt", "pull", "--json"]);
    assert_eq!(args(r#"{"action": "sync.status"}"#), ["dolt", "status", "--json"]);
}

#[test]
fn bodies_go_through_standard_input() {
    let with_body = command(r#"{"action": "epic.create", "title": "T", "body": "B\nC"}"#);
    assert_eq!(with_body.args, ["create", "T", "--json", "--stdin"]);
    assert_eq!(with_body.stdin.as_deref(), Some("B\nC"));
    let without = command(r#"{"action": "epic.create", "title": "T", "priority": 0, "label": "l"}"#);
    assert_eq!(
        without.args,
        ["create", "T", "--priority", "0", "--label", "l", "--json"]
    );
    assert_eq!(without.stdin, None);
    let updated = command(
        r#"{"action": "issue.update", "issue_id": "i", "title": "T", "body": "B\nC"}"#,
    );
    assert_eq!(updated.args, ["update", "i", "--title", "T", "--json", "--stdin"]);
    assert_eq!(updated.stdin.as_deref(), Some("B\nC"));
    let retitled = command(r#"{"action": "issue.update", "issue_id": "i", "title": "T"}"#);
    assert_eq!(retitled.args, ["update", "i", "--title", "T", "--json"]);
    assert_eq!(retitled.stdin, None);
    let rewritten = command(r#"{"action": "epic.update", "epic_id": "e", "body": "B"}"#);
    assert_eq!(rewritten.args, ["update", "e", "--json", "--stdin"]);
    assert_eq!(rewritten.stdin.as_deref(), Some("B"));
    let closed = command(r#"{"action": "epic.update", "epic_id": "e", "status": "closed"}"#);
    assert_eq!(closed.args, ["update", "e", "--status", "closed", "--json"]);
    assert_eq!(closed.stdin, None);
    let comment = provider()
        .issue_comment(&IssueCommentInput { issue_id: "i".into(), body: "text".into() });
    assert_eq!(comment.args, ["comment", "i", "--json", "--stdin"]);
    assert_eq!(comment.stdin.as_deref(), Some("text"));
}

#[test]
fn global_flags_come_first() {
    let provider =
        BeadsProvider::new("/bin/bd".into(), Some("/db".into()), Some("bot".into()), 9);
    let command = provider.issue_list(&IssueListParams::default());
    assert_eq!(command.program, "/bin/bd");
    assert_eq!(command.timeout_secs, 9);
    assert_eq!(command.args, ["--db", "/db", "--actor", "bot", "list", "--json"]);
    assert_eq!(provider.base_cmd(), ["--db", "/db", "--actor", "bot"]);
}

#[test]
fn output_is_read_or_reported() {
    let answer = |end| parse_output(end).unwrap();
    assert_eq!(
        print_json(&answer(exited(true, "exit status: 0", b"{\"id\": 1}\n", b"")).unwrap()),
        r#"{"id":1}"#
    );
    assert_eq!(
        print_json(&answer(exited(true, "exit status: 0", b" \t\r\n", b"noise")).unwrap()),
        r#"{"ok":true}"#
    );
    assert_eq!(
        print_json(
            &answer(exited(true, "exit status: 0", "\u{2003}\u{85}".as_bytes(), b"")).unwrap()
        ),
        r#"{"ok":true}"#
    );
    assert!(answer(exited(true, "exit status: 0", b"created", b""))
        .unwrap_err()
        .starts_with("failed to parse bd JSON output: expected value"));
    assert_eq!(
        answer(exited(false, "exit status: 2", b"", b"no \xff such issue")).unwrap_err(),
        "bd error (exit exit status: 2): no \u{fffd} such issue"
    );
    assert_eq!(
        answer(exited(false, "exit status: 2", b"", "x".repeat(501).as_bytes())).unwrap_err(),
        format!("bd error (exit exit status: 2): {}...", "x".repeat(500))
    );
    assert_eq!(answer(BdEnd::TimedOut).unwrap_err(), "bd command timed out");
    assert_eq!(answer(BdEnd::Failed("not found".into())).unwrap_err(), "not found");
    let split = format!("{}é", "a".repeat(499));
    assert!(parse_output(exited(false, "exit status: 1", b"", split.as_bytes())).is_none());
    assert!(parse_output(exited(true, "exit status: 0", b"", split.as_bytes())).is_some());
    assert_eq!(
        answer_exit(true, "exit status: 0", "x", "", Err("bad".into())).unwrap_err(),
        "failed to parse bd JSON output: bad"
    );
}

#[test]
fn priorities_saturate() {
    assert_eq!(parse_priority(0), 0);
    assert_eq!(parse_priority(255), 255);
    assert_eq!(parse_priority(256), 255);
    assert_eq!(parse_priority(u64::MAX), 255);
}

#[test]
fn issue_results_are_printed_or_cut() {
    let tool = tool();
    assert_eq!(tool.execute_finished(Ok(Json::Bool(true))).output, "true");
    assert_eq!(
        tool.execute_finished(Err("z".repeat(501))).error.unwrap(),
        format!("{}...", "z".repeat(500))
    );
}
