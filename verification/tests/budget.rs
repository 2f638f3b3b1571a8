use agent_tools::http::{HttpReply, HttpRequest, Method};
use agent_tools::json::Json;
use agent_tools::json_text::{parse_json, print_json};
use agent_tools::tools::budget::types::TransactionListParams;
use agent_tools::tools::budget::ynab::{answer_of, encode_segment, parse_response, YnabProvider};
use agent_tools::tools::budget::{operation_of, BudgetCall, BudgetStep, BudgetTool};
use agent_tools::tools::policy::{PolicyAnswers, Question};
use agent_tools::tools::result::{is_error_cuttable, ToolOperation};

const ACTIONS: [&str; 15] = [
    "budgets.list",
    "budgets.get",
    "budgets.summary",
    "transactions.list",
    "transactions.create",
    "transactions.update",
    "transactions.import",
    "user.get",
    "accounts.list",
    "accounts.get",
    "categories.list",
    "categories.get",
    "categories.create",
    "payees.list",
    "payees.get",
];

fn json(text: &str) -> Json {
    parse_json(text).unwrap()
}

fn tool() -> BudgetTool {
    let mut actions: Vec<String> = ACTIONS.iter().map(|a| a.to_string()).collect();
    actions.push("budgets.delete".into());
    BudgetTool::new(actions, Some("plan one".into()))
}

fn permitted() -> PolicyAnswers {
    PolicyAnswers { rate_limited: Some(false), recorded: Some(true), verdict: Some(Ok(())) }
}

fn call(args: &str) -> BudgetCall {
    match tool().execute(&json(args), &permitted()) {
        BudgetStep::Call(call) => call,
        other => panic!("unexpected step: {other:?}"),
    }
}

fn request(args: &str) -> HttpRequest {
    YnabProvider::new("token".into(), 15).request(&call(args))
}

fn error(step: BudgetStep) -> String {
    match step {
        BudgetStep::Done(result) => {
            assert!(!result.success);
            assert_eq!(result.output, "");
            result.error.unwrap()
        }
        other => panic!("unexpected step: {other:?}"),
    }
}

fn reply(code: u16, status: &str, body: &str) -> Result<HttpReply, String> {
    Ok(HttpReply { code, status: status.into(), body: body.into() })
}

#[test]
fn budget_policy_is_asked_in_order() {
    let tool = BudgetTool::new(vec!["transactions.create".into()], None);
    let args = json(r#"{"action": "transactions.create"}"#);
    let mut answers = PolicyAnswers::none();
    let asked = |answers: &PolicyAnswers| match tool.execute(&args, answers) {
        BudgetStep::Ask(question) => question,
        other => panic!("unexpected step: {other:?}"),
    };
    assert_eq!(asked(&answers), Question::RateLimited);
    answers.rate_limited = Some(false);
    assert_eq!(asked(&answers), Question::Record);
    answers.recorded = Some(true);
    assert_eq!(asked(&answers), Question::Enforce(ToolOperation::Act));
    answers.verdict = Some(Err("read only".into()));
    assert_eq!(error(tool.execute(&args, &answers)), "read only");
    answers.recorded = Some(false);
    assert_eq!(error(tool.execute(&args, &answers)), "Action budget exhausted.");
    answers.rate_limited = Some(true);
    assert_eq!(error(tool.execute(&args, &answers)), "Rate limit exceeded for budget tool.");
}

#[test]
fn budget_refusals_are_exact() {
    let tool = tool();
    match tool.execute(&json("{}"), &permitted()) {
        BudgetStep::Failed(error) => assert_eq!(error, "missing required parameter: action"),
        other => panic!("unexpected step: {other:?}"),
    }
    let none = PolicyAnswers::none();
    assert_eq!(
        error(tool.execute(&json(r#"{"action": "budgets.burn"}"#), &none)),
        "action 'budgets.burn' is not in the allowed_actions list. \
         Update [budget].allowed_actions in config to enable it."
    );
    assert_eq!(
        error(tool.execute(&json(r#"{"action": "budgets.delete"}"#), &permitted())),
        "unknown action: budgets.delete"
    );
    assert!(tool.is_action_allowed("budgets.list"));
    assert!(!tool.is_action_allowed("budgets.burn"));
}

#[test]
fn budget_missing_parameters_are_reported() {
    let message = |args: &str| error(tool().execute(&json(args), &permitted()));
    assert_eq!(
        message(r#"{"action": "transactions.create"}"#),
        "missing required parameter: account_id"
    );
    assert_eq!(
        message(r#"{"action": "transactions.create", "account_id": "a"}"#),
        "missing required parameter: date"
    );
    assert_eq!(
        message(
            r#"{"action": "transactions.create", "account_id": "a", "date": "d", "amount": 1.5}"#
        ),
        "missing required parameter: amount"
    );
    assert_eq!(
        message(r#"{"action": "transactions.update"}"#),
        "missing required parameter: transaction_id"
    );
    assert_eq!(
        message(r#"{"action": "accounts.get"}"#),
        "missing required parameter: account_id"
    );
    assert_eq!(
        message(r#"{"action": "categories.get"}"#),
        "missing required parameter: category_id"
    );
    assert_eq!(
        message(r#"{"action": "categories.create"}"#),
        "missing required parameter: category_group_id"
    );
    assert_eq!(
        message(r#"{"action": "categories.create", "category_group_id": "g"}"#),
        "missing required parameter: name"
    );
    assert_eq!(message(r#"{"action": "payees.get"}"#), "missing required parameter: payee_id");
    let without_default = BudgetTool::new(vec!["budgets.get".into()], None);
    assert_eq!(
        error(without_default.execute(
            &json(r#"{"action": "budgets.get", "budget_id": ""}"#),
            &permitted()
        )),
        "missing required parameter: budget_id (no default configured)"
    );
}

#[test]
fn budget_operations_are_told_apart() {
    for action in ACTIONS {
        let acts = matches!(
            action,
            "transactions.create"
                | "transactions.update"
                | "transactions.import"
                | "categories.create"
        );
        assert_eq!(operation_of(action) == ToolOperation::Act, acts);
    }
    assert_eq!(operation_of("anything"), ToolOperation::Read);
}

#[test]
fn budget_schema_lists_all_actions() {
    let schema = tool().parameters_schema();
    let properties = schema.get("properties").unwrap();
    let listed: Vec<&str> = properties
        .get("action")
        .unwrap()
        .get("enum")
        .unwrap()
        .as_array()
        .unwrap()
        .iter()
        .filter_map(|v| v.as_str())
        .collect();
    assert_eq!(listed, ACTIONS);
    assert_eq!(properties.get("amount").unwrap().str_at("type"), Some("integer"));
    assert_eq!(properties.get("approved").unwrap().str_at("type"), Some("boolean"));
    assert_eq!(
        print_json(properties.get("cleared").unwrap()),
        r#"{"description":"Transaction cleared status.","enum":["cleared","uncleared","reconciled"],"type":"string"}"#
    );
    assert_eq!(tool().name(), "budget");
    assert!(tool().description().ends_with("e.g. $1.50 = 1500)."));
}

#[test]
fn dots_do_not_leave_the_path() {
    assert_eq!(encode_segment("."), "%252E");
    assert_eq!(encode_segment(".."), "%252E%252E");
    assert_eq!(encode_segment("..."), "...");
    assert_eq!(encode_segment(".a"), ".a");
    let seen = |args: &str| reqwest::Url::parse(&request(args).url).unwrap().path().to_string();
    assert_eq!(
        seen(r#"{"action": "budgets.get", "budget_id": ".."}"#),
        "/v1/plans/%252E%252E"
    );
    assert_eq!(
        seen(r#"{"action": "accounts.get", "budget_id": ".", "account_id": ".."}"#),
        "/v1/plans/%252E/accounts/%252E%252E"
    );
    assert_eq!(
        seen(r#"{"action": "transactions.list", "budget_id": "b", "payee_id": ".."}"#),
        "/v1/plans/b/payees/%252E%252E/transactions"
    );
    assert_eq!(
        seen(r#"{"action": "budgets.get", "budget_id": "%2E%2e"}"#),
        "/v1/plans/%252E%252e"
    );
}

#[test]
fn path_segments_stay_apart() {
    let ids = ["", ".", "..", "...", "a/b", "a%2Fb", "a b", "a+b", "é", "%"];
    for (i, a) in ids.iter().enumerate() {
        for b in &ids[i + 1..] {
            assert_ne!(encode_segment(a), encode_segment(b));
        }
    }
}

#[test]
fn segments_are_decoded_to_the_ids() {
    for id in ["", "plan one", "a/b?c#d", "100%", "%2F", "é~", "../x", "...", "%2e"] {
        assert_eq!(urlencoding::decode(&encode_segment(id)).unwrap(), id);
    }
    assert_eq!(urlencoding::decode(&encode_segment(".")).unwrap(), "%2E");
    assert_eq!(urlencoding::decode(&encode_segment("..")).unwrap(), "%2E%2E");
}

#[test]
fn paths_are_encoded() {
    let url = |args: &str| request(args).url;
    let base = "https://api.ynab.com/v1";
    assert_eq!(encode_segment("a/b c~é"), "a%2Fb%20c~%C3%A9");
    assert_eq!(url(r#"{"action": "budgets.list"}"#), format!("{base}/plans"));
    assert_eq!(
        request(r#"{"action": "budgets.list"}"#).query,
        vec![("include_accounts".to_string(), "true".to_string())]
    );
    assert_eq!(url(r#"{"action": "budgets.get"}"#), format!("{base}/plans/plan%20one"));
    assert_eq!(
        url(r#"{"action": "budgets.get", "budget_id": "../x"}"#),
        format!("{base}/plans/..%2Fx")
    );
    assert_eq!(
        url(r#"{"action": "budgets.summary"}"#),
        format!("{base}/plans/plan%20one/months")
    );
    assert_eq!(
        url(r#"{"action": "budgets.summary", "month": "2025-01-01"}"#),
        format!("{base}/plans/plan%20one/months/2025-01-01")
    );
    assert_eq!(url(r#"{"action": "user.get"}"#), format!("{base}/user"));
    assert_eq!(
        url(r#"{"action": "accounts.list"}"#),
        format!("{base}/plans/plan%20one/accounts")
    );
    assert_eq!(
        url(r#"{"action": "accounts.get", "account_id": "a"}"#),
        format!("{base}/plans/plan%20one/accounts/a")
    );
    assert_eq!(
        url(r#"{"action": "categories.list"}"#),
        format!("{base}/plans/plan%20one/categories")
    );
    assert_eq!(
        url(r#"{"action": "categories.get", "category_id": "c"}"#),
        format!("{base}/plans/plan%20one/categories/c")
    );
    assert_eq!(
        url(r#"{"action": "payees.list"}"#),
        format!("{base}/plans/plan%20one/payees")
    );
    assert_eq!(
        url(r#"{"action": "payees.get", "payee_id": "p?"}"#),
        format!("{base}/plans/plan%20one/payees/p%3F")
    );
}

#[test]
fn transactions_are_listed_by_the_most_specific_filter() {
    let url = |args: &str| request(args).url;
    let base = "https://api.ynab.com/v1/plans/plan%20one";
    assert_eq!(url(r#"{"action": "transactions.list"}"#), format!("{base}/transactions"));
    assert_eq!(
        url(r#"{"action": "transactions.list", "payee_id": "p"}"#),
        format!("{base}/payees/p/transactions")
    );
    assert_eq!(
        url(r#"{"action": "transactions.list", "payee_id": "p", "category_id": "c"}"#),
        format!("{base}/categories/c/transactions")
    );
    assert_eq!(
        url(
            r#"{"action": "transactions.list", "payee_id": "p", "category_id": "c",
                "account_id": "a"}"#
        ),
        format!("{base}/accounts/a/transactions")
    );
    let filtered = request(
        r#"{"action": "transactions.list", "since_date": "2025-01-01",
            "transaction_type": "unapproved", "last_knowledge_of_server": -7}"#,
    );
    assert_eq!(filtered.method, Method::Get);
    assert_eq!(
        filtered.query,
        vec![
            ("since_date".to_string(), "2025-01-01".to_string()),
            ("type".to_string(), "unapproved".to_string()),
            ("last_knowledge_of_server".to_string(), "-7".to_string())
        ]
    );
    let plain = TransactionListParams::default();
    assert_eq!(plain.budget_id, "");
    assert!(plain.account_id.is_none() && plain.last_knowledge_of_server.is_none());
}

#[test]
fn transactions_are_sent_as_given() {
    let created = request(
        r#"{"action": "transactions.create", "account_id": "a", "date": "2025-01-15",
            "amount": -1500, "payee_name": "Shop", "memo": "m", "approved": true}"#,
    );
    assert_eq!(created.method, Method::Post);
    assert_eq!(created.url, "https://api.ynab.com/v1/plans/plan%20one/transactions");
    assert_eq!(created.timeout_secs, Some(15));
    assert_eq!(
        created.headers,
        vec![("Authorization".to_string(), "Bearer token".to_string())]
    );
    assert_eq!(
        print_json(created.body.as_ref().unwrap()),
        r#"{"transaction":{"account_id":"a","amount":-1500,"approved":true,"date":"2025-01-15","memo":"m","payee_name":"Shop"}}"#
    );
    let updated = request(
        r#"{"action": "transactions.update", "transaction_id": "t/1", "amount": 9,
            "flag_color": "red", "approved": false, "cleared": "cleared", "category_id": "c",
            "payee_id": "p", "account_id": "a", "date": "d"}"#,
    );
    assert_eq!(updated.method, Method::Put);
    assert_eq!(updated.url, "https://api.ynab.com/v1/plans/plan%20one/transactions/t%2F1");
    assert_eq!(
        print_json(updated.body.as_ref().unwrap()),
        r#"{"transaction":{"account_id":"a","amount":9,"approved":false,"category_id":"c","cleared":"cleared","date":"d","flag_color":"red","payee_id":"p"}}"#
    );
    let empty = request(r#"{"action": "transactions.update", "transaction_id": "t"}"#);
    assert_eq!(print_json(empty.body.as_ref().unwrap()), r#"{"transaction":{}}"#);
    let imported = request(r#"{"action": "transactions.import"}"#);
    assert_eq!(imported.url, "https://api.ynab.com/v1/plans/plan%20one/transactions/import");
    assert_eq!(print_json(imported.body.as_ref().unwrap()), "{}");
    let category = request(
        r#"{"action": "categories.create", "category_group_id": "g", "name": "Food"}"#,
    );
    assert_eq!(category.url, "https://api.ynab.com/v1/plans/plan%20one/categories");
    assert_eq!(
        print_json(category.body.as_ref().unwrap()),
        r#"{"category":{"category_group_id":"g","name":"Food"}}"#
    );
}

#[test]
fn ynab_replies_are_unwrapped() {
    let answer = |r| parse_response(r).unwrap();
    assert_eq!(
        print_json(&answer(reply(200, "200 OK", r#"{"data": {"a": 1}}"#)).unwrap()),
        r#"{"a":1}"#
    );
    assert_eq!(print_json(&answer(reply(200, "200 OK", r#"{"a": 1}"#)).unwrap()), r#"{"a":1}"#);
    assert_eq!(print_json(&answer(reply(200, "200 OK", "[1]")).unwrap()), "[1]");
    assert!(answer(reply(200, "200 OK", "")).unwrap_err().contains("EOF"));
    assert_eq!(
        answer(reply(404, "404 Not Found", r#"{"error": {"detail": "No such plan"}}"#))
            .unwrap_err(),
        "YNAB API error (404 Not Found): No such plan"
    );
    assert_eq!(
        answer(reply(500, "500 Internal Server Error", &"b".repeat(501))).unwrap_err(),
        format!("YNAB API error (500 Internal Server Error): {}...", "b".repeat(500))
    );
    assert_eq!(answer(Err("no route".into())).unwrap_err(), "no route");
    let split = format!("{}é", "a".repeat(499));
    assert!(parse_response(reply(500, "500", &split)).is_none());
    assert!(parse_response(reply(200, "200", &split)).is_some());
    let detailed = format!(r#"{{"error": {{"detail": "d"}}, "pad": "{split}"}}"#);
    assert!(parse_response(reply(500, "500", &detailed)).is_some());
    assert_eq!(
        answer_of(&reply(500, "500", "raw"), Err("not JSON".into())).unwrap_err(),
        "YNAB API error (500): raw"
    );
}

#[test]
fn budget_results_are_printed_or_cut() {
    let tool = tool();
    let done = tool.execute_finished(Ok(json(r#"{"a": [1]}"#)));
    assert!(done.success);
    assert_eq!(done.output, "{\n  \"a\": [\n    1\n  ]\n}");
    let long = "e".repeat(600);
    assert_eq!(
        tool.execute_finished(Err(long)).error.unwrap(),
        format!("{}...", "e".repeat(500))
    );
    assert_eq!(tool.execute_finished(Err("short".into())).error.as_deref(), Some("short"));
    assert!(!is_error_cuttable(&Err(format!("{}é", "a".repeat(499)))));
    assert!(is_error_cuttable(&Ok(Json::Null)));
}
