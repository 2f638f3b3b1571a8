use agent_tools::channels::agentphone::AgentPhoneChannel;
use agent_tools::channels::session::new_outbound_tracker;
use agent_tools::config::{PhoneNumberConfig, PhoneNumberEntry, PhoneTrustLevel};
use agent_tools::http::{HttpReply, HttpRequest, Method};
use agent_tools::json::Json;
use agent_tools::json_text::{parse_json, print_json};
use agent_tools::tools::agentphone_tool::{
    answer_of, handle_response, is_reportable, operation_of, AgentPhoneTool, Outcome, PhoneStep,
    Stage,
};
use agent_tools::tools::result::{Admission, ToolOperation, ToolResult};

fn json(text: &str) -> Json {
    parse_json(text).unwrap()
}

fn make_tool() -> AgentPhoneTool {
    AgentPhoneTool::new(
        "test-api-key".into(),
        Some("agt_test".into()),
        Some("num_test".into()),
        vec![PhoneNumberEntry::Simple("+15551234567".into())],
        vec!["agents.list".into(), "calls.create".into(), "sms.send".into()],
        Some("Polly.Amy".into()),
        Some("Hello!".into()),
    )
}

fn bare_tool(numbers: Vec<PhoneNumberEntry>) -> AgentPhoneTool {
    AgentPhoneTool::new("key".into(), None, None, numbers, vec![], None, None)
}

fn open_tool() -> AgentPhoneTool {
    let actions = [
        "agents.list",
        "agents.get",
        "agents.create",
        "agents.update",
        "numbers.list",
        "calls.list",
        "calls.get",
        "calls.create",
        "sms.send",
        "conversations.list",
        "conversations.get",
        "conversations.update",
        "usage.get",
    ];
    AgentPhoneTool::new(
        "k".into(),
        None,
        None,
        vec![PhoneNumberEntry::Simple("*".into())],
        actions.iter().map(|a| a.to_string()).collect(),
        None,
        None,
    )
}

fn execute(tool: &AgentPhoneTool, args: &str) -> PhoneStep {
    tool.execute_authorized(&json(args), Ok(()))
}

fn result(step: PhoneStep) -> ToolResult {
    outcome(step).result
}

fn outcome(step: PhoneStep) -> Outcome {
    match step {
        PhoneStep::Done(outcome) => outcome,
        PhoneStep::Send(stage, request) => panic!("unexpected request: {stage:?} {request:?}"),
    }
}

fn sent(step: PhoneStep) -> (Stage, HttpRequest) {
    match step {
        PhoneStep::Send(stage, request) => (stage, request),
        PhoneStep::Done(outcome) => panic!("unexpected end: {outcome:?}"),
    }
}

fn error(step: PhoneStep) -> String {
    let result = result(step);
    assert!(!result.success);
    assert_eq!(result.output, "");
    result.error.unwrap()
}

fn ok(body: &str) -> Result<HttpReply, String> {
    Ok(HttpReply { code: 200, status: "200 OK".into(), body: body.into() })
}

fn bad(body: &str) -> Result<HttpReply, String> {
    Ok(HttpReply { code: 422, status: "422 Unprocessable Entity".into(), body: body.into() })
}

#[test]
fn tool_name() {
    assert_eq!(make_tool().name(), "agentphone");
}

#[test]
fn action_allowed_check() {
    let tool = make_tool();
    assert!(tool.is_action_allowed("agents.list"));
    assert!(tool.is_action_allowed("calls.create"));
    assert!(!tool.is_action_allowed("agents.create"));
}

#[test]
fn number_allowed_check() {
    let tool = make_tool();
    assert!(tool.is_number_allowed("+15551234567"));
    assert!(!tool.is_number_allowed("+15559999999"));
}

#[test]
fn number_allowed_wildcard() {
    let tool = bare_tool(vec![PhoneNumberEntry::Simple("*".into())]);
    assert!(tool.is_number_allowed("+15559999999"));
}

#[test]
fn number_allowed_empty_denies_all() {
    let tool = bare_tool(vec![]);
    assert!(!tool.is_number_allowed("+15551234567"));
}

#[test]
fn number_purpose_lookup() {
    let tool = bare_tool(vec![
        PhoneNumberEntry::Simple("+15551234567".into()),
        PhoneNumberEntry::Detailed(PhoneNumberConfig {
            number: "+15559876543".into(),
            trust: PhoneTrustLevel::Scoped,
            purpose: Some("dentist appointment".into()),
        }),
    ]);
    assert_eq!(tool.get_number_purpose("+15551234567"), None);
    assert_eq!(tool.get_number_purpose("+15559876543"), Some("dentist appointment"));
}

#[test]
fn execute_missing_action() {
    let tool = make_tool();
    let result = result(execute(&tool, "{}"));
    assert!(!result.success);
    assert!(result.error.unwrap().contains("Missing required parameter"));
}

#[test]
fn execute_unknown_action() {
    let tool = make_tool();
    let result = result(execute(&tool, r#"{"action": "foo.bar"}"#));
    assert!(!result.success);
    assert!(result.error.unwrap().contains("Unknown action"));
}

#[test]
fn execute_disallowed_action() {
    let tool = make_tool();
    let result = result(execute(&tool, r#"{"action": "agents.create", "name": "Test"}"#));
    assert!(!result.success);
    assert!(result.error.unwrap().contains("not enabled"));
}

#[test]
fn refusals_are_exact() {
    let tool = make_tool();
    let refused = |args: &str| match tool.execute_start(&json(args)) {
        Admission::Refused(result) => result.error.unwrap(),
        Admission::Granted(operation) => panic!("granted: {operation:?}"),
    };
    assert_eq!(refused(r#"{"action": 1}"#), "Missing required parameter: action");
    assert_eq!(
        refused(r#"{"action": "foo.bar"}"#),
        "Unknown action: foo.bar. Valid actions: agents.list, agents.get, agents.create, \
         agents.update, numbers.list, calls.list, calls.get, calls.create, sms.send, \
         conversations.list, conversations.get, conversations.update, usage.get"
    );
    assert_eq!(
        refused(r#"{"action": "usage.get"}"#),
        "Action 'usage.get' is not enabled. Add it to [agentphone].allowed_actions in \
         config.toml. Currently allowed: agents.list, calls.create, sms.send"
    );
}

#[test]
fn operations_are_told_apart() {
    assert_eq!(operation_of("agents.list"), Some(ToolOperation::Read));
    assert_eq!(operation_of("usage.get"), Some(ToolOperation::Read));
    assert_eq!(operation_of("sms.send"), Some(ToolOperation::Act));
    assert_eq!(operation_of("conversations.update"), Some(ToolOperation::Act));
    assert_eq!(operation_of("agents.delete"), None);
    assert!(matches!(
        make_tool().execute_start(&json(r#"{"action": "calls.create"}"#)),
        Admission::Granted(ToolOperation::Act)
    ));
}

#[test]
fn the_policy_can_refuse() {
    let tool = make_tool();
    let step =
        tool.execute_authorized(&json(r#"{"action": "agents.list"}"#), Err("read only".into()));
    assert_eq!(error(step), "read only");
}

#[test]
fn lists_ask_for_a_number_of_results() {
    let tool = open_tool();
    let url = |args: &str| sent(execute(&tool, args)).1.url;
    let base = "https://api.agentphone.to/v1";
    assert_eq!(url(r#"{"action": "agents.list"}"#), format!("{base}/agents?limit=20"));
    assert_eq!(url(r#"{"action": "numbers.list", "limit": 5}"#), format!("{base}/numbers?limit=5"));
    assert_eq!(url(r#"{"action": "calls.list", "limit": -5}"#), format!("{base}/calls?limit=20"));
    assert_eq!(
        url(r#"{"action": "conversations.list", "limit": 18446744073709551615}"#),
        format!("{base}/conversations?limit=18446744073709551615")
    );
    assert_eq!(url(r#"{"action": "usage.get"}"#), format!("{base}/usage"));
    assert_eq!(
        url(r#"{"action": "conversations.get", "conversation_id": "c"}"#),
        format!("{base}/conversations/c?message_limit=50")
    );
    assert_eq!(
        url(r#"{"action": "calls.get", "call_id": "x"}"#),
        format!("{base}/calls/x")
    );
    assert_eq!(
        url(r#"{"action": "agents.get", "agent_id": "a"}"#),
        format!("{base}/agents/a")
    );
}

#[test]
fn missing_parameters_are_reported() {
    let tool = open_tool();
    let message = |args: &str| error(execute(&tool, args));
    assert_eq!(
        message(r#"{"action": "agents.get"}"#),
        "agents.get requires agent_id parameter"
    );
    assert_eq!(
        message(r#"{"action": "agents.create"}"#),
        "agents.create requires name parameter"
    );
    assert_eq!(
        message(r#"{"action": "agents.update"}"#),
        "agents.update requires agent_id parameter"
    );
    assert_eq!(message(r#"{"action": "calls.get"}"#), "calls.get requires call_id parameter");
    assert_eq!(
        message(r#"{"action": "calls.create"}"#),
        "calls.create requires 'to' parameter (E.164 phone number)"
    );
    assert_eq!(
        message(r#"{"action": "calls.create", "to": "+1"}"#),
        "calls.create requires agent_id (or configure default_agent_id)"
    );
    assert_eq!(
        message(r#"{"action": "sms.send"}"#),
        "sms.send requires 'to' parameter (E.164 phone number)"
    );
    assert_eq!(
        message(r#"{"action": "sms.send", "to": "+1"}"#),
        "sms.send requires 'message' parameter"
    );
    assert_eq!(
        message(r#"{"action": "sms.send", "to": "+1", "message": "m"}"#),
        "sms.send requires agent_id (or configure default_agent_id)"
    );
    assert_eq!(
        message(r#"{"action": "conversations.get"}"#),
        "conversations.get requires conversation_id parameter"
    );
    assert_eq!(
        message(r#"{"action": "conversations.update"}"#),
        "conversations.update requires conversation_id parameter"
    );
    assert_eq!(
        message(r#"{"action": "conversations.update", "conversation_id": "c"}"#),
        "conversations.update requires metadata parameter"
    );
}

#[test]
fn bodies_carry_what_is_given() {
    let tool = open_tool();
    let request = |args: &str| sent(execute(&tool, args)).1;
    let created = request(
        r#"{"action": "agents.create", "name": "N", "description": "D", "voice": "V",
            "begin_message": "B", "voice_mode": "hosted"}"#,
    );
    assert_eq!(created.method, Method::Post);
    assert_eq!(created.timeout_secs, Some(30));
    assert_eq!(
        print_json(created.body.as_ref().unwrap()),
        r#"{"beginMessage":"B","description":"D","name":"N","voice":"V","voiceMode":"hosted"}"#
    );
    let updated = request(r#"{"action": "agents.update", "agent_id": "a", "system_prompt": "P"}"#);
    assert_eq!(updated.method, Method::Patch);
    assert_eq!(print_json(updated.body.as_ref().unwrap()), r#"{"systemPrompt":"P"}"#);
    let changed = request(
        r#"{"action": "conversations.update", "conversation_id": "c", "metadata": {"k": [1, 2.5]}}"#,
    );
    assert_eq!(changed.url, "https://api.agentphone.to/v1/conversations/c");
    assert_eq!(print_json(changed.body.as_ref().unwrap()), r#"{"metadata":{"k":[1,2.5]}}"#);
}

#[test]
fn defaults_fill_in() {
    let tool = AgentPhoneTool::new(
        "k".into(),
        Some("agt".into()),
        Some("num".into()),
        vec![PhoneNumberEntry::Simple("*".into())],
        vec!["calls.create".into(), "agents.create".into(), "agents.update".into()],
        Some("V".into()),
        Some("B".into()),
    );
    let body = |args: &str| print_json(sent(execute(&tool, args)).1.body.as_ref().unwrap());
    assert_eq!(
        body(r#"{"action": "calls.create", "to": "+1"}"#),
        r#"{"agentId":"agt","fromNumberId":"num","initialGreeting":"B","toNumber":"+1","voice":"V"}"#
    );
    assert_eq!(
        body(r#"{"action": "agents.create", "name": "N"}"#),
        r#"{"beginMessage":"B","name":"N","voice":"V"}"#
    );
    assert_eq!(body(r#"{"action": "agents.update"}"#), "{}");
}

#[test]
fn outbound_contacts_need_an_allowed_number() {
    let tool = make_tool();
    let expected = "Phone number +15559999999 is not in the allowed_numbers list. \
                    Add it to [agentphone].allowed_numbers in config.toml.";
    assert_eq!(
        error(execute(&tool, r#"{"action": "calls.create", "to": "+15559999999"}"#)),
        expected
    );
    assert_eq!(
        error(execute(&tool, r#"{"action": "sms.send", "to": "+15559999999", "message": "m"}"#)),
        expected
    );
}

#[test]
fn a_placed_call_is_registered_and_noted() {
    let mut tool = make_tool().with_outbound_tracker(new_outbound_tracker());
    let (stage, request) = sent(execute(
        &tool,
        r#"{"action": "calls.create", "to": "+15551234567", "purpose": "dentist"}"#,
    ));
    assert_eq!(request.url, "https://api.agentphone.to/v1/calls");
    let outcome = outcome(tool.execute_reply_at(stage, ok(r#"{"id": "call_1"}"#), 1000));
    assert!(outcome.result.success);
    assert_eq!(outcome.result.output, "{\n  \"id\": \"call_1\"\n}");
    let registration = outcome.registration.unwrap();
    assert_eq!(registration.phone, "+15551234567");
    assert_eq!(registration.call_id, "call_1");
    assert_eq!(registration.purpose.as_deref(), Some("dentist"));
    assert!(registration.is_voice);
    let memory = outcome.memory.unwrap();
    assert_eq!(memory.key, "agentphone_out_+15551234567_1000");
    assert_eq!(memory.session_id, "agentphone_voice_+15551234567");
    let tracker = tool.outbound_tracker().unwrap();
    assert!(tracker.is_active_at("+15551234567", 4600));
    assert!(!tracker.is_active_at("+15551234567", 4601));
    assert_eq!(
        memory.content,
        "[outbound call placed] to: +15551234567, greeting: Hello!, prompt: none, purpose: dentist"
    );
}

#[test]
fn an_sms_takes_two_requests() {
    let mut tool = make_tool();
    let (stage, request) = sent(execute(
        &tool,
        r#"{"action": "sms.send", "to": "+15551234567", "message": "Hi"}"#,
    ));
    assert_eq!(
        request.url,
        "https://api.agentphone.to/v1/agents/agt_test/conversations?limit=100"
    );
    let listing = r#"[{"participant": "15551234567", "id": "conv"}]"#;
    let (stage, request) = sent(tool.execute_reply_at(stage, ok(listing), 5));
    assert_eq!(request.method, Method::Patch);
    assert_eq!(request.url, "https://api.agentphone.to/v1/conversations/conv");
    assert_eq!(print_json(request.body.as_ref().unwrap()), r#"{"metadata":{"_reply":"Hi"}}"#);
    let outcome = outcome(tool.execute_reply_at(stage, ok(""), 6));
    assert_eq!(outcome.result.output, "{\n  \"status\": \"ok\"\n}");
    let registration = outcome.registration.unwrap();
    assert_eq!(registration.call_id, "conv");
    assert!(!registration.is_voice);
    assert_eq!(
        outcome.memory.unwrap().content,
        "[outbound SMS sent] to: +15551234567, message: Hi, purpose: none"
    );
}

#[test]
fn an_sms_needs_a_conversation() {
    let mut tool = make_tool();
    let args = r#"{"action": "sms.send", "to": "+15551234567", "message": "Hi"}"#;
    let (stage, _) = sent(execute(&tool, args));
    assert_eq!(
        error(tool.execute_reply_at(stage, ok("[]"), 5)),
        "No existing conversation found with +15551234567. \
         An inbound message is required before sending SMS."
    );
    let (stage, _) = sent(execute(&tool, args));
    assert_eq!(
        error(tool.execute_reply_at(stage, Err("no route".into()), 5)),
        "Failed to list conversations: no route"
    );
}

#[test]
fn the_channel_finds_what_the_tool_registers() {
    let mut channel = AgentPhoneChannel::new("k".into(), "s".into(), vec![]);
    let mut tool = make_tool().with_outbound_tracker(new_outbound_tracker());
    let args = r#"{"action": "calls.create", "to": "+15551234567", "purpose": "dentist"}"#;
    let (stage, _) = sent(execute(&tool, args));
    let outcome = outcome(tool.execute_reply_at(stage, ok(r#"{"id": "call_1"}"#), 1000));
    assert!(!channel.has_active_outbound_at("+15551234567", 1000));
    channel.register(&outcome.registration.unwrap(), 1000);
    let tracker = tool.outbound_tracker().unwrap();
    for now in [1000, 4600, 4601] {
        assert_eq!(
            channel.has_active_outbound_at("+15551234567", now),
            tracker.is_active_at("+15551234567", now)
        );
        assert_eq!(
            channel.get_outbound_purpose_at("+15551234567", now),
            tracker.purpose_at("+15551234567", now)
        );
    }
    assert!(channel.has_active_outbound_at("+15551234567", 4600));
    assert_eq!(channel.outbound_tracker().get("+15551234567").unwrap().call_id, "call_1");
}

#[test]
fn failed_calls_register_nothing() {
    let mut tool = make_tool().with_outbound_tracker(new_outbound_tracker());
    let (stage, _) =
        sent(execute(&tool, r#"{"action": "calls.create", "to": "+15551234567"}"#));
    let outcome = outcome(tool.execute_reply(stage, bad("no credit")));
    assert_eq!(
        outcome.result.error.as_deref(),
        Some("AgentPhone API error 422 Unprocessable Entity: no credit")
    );
    assert!(outcome.registration.is_none());
    assert!(outcome.memory.is_none());
    assert!(tool.outbound_tracker().unwrap().get("+15551234567").is_none());
}

#[test]
fn replies_are_read_as_json() {
    assert_eq!(print_json(&handle_response(ok("[1,2]")).unwrap()), "[1,2]");
    assert!(handle_response(ok("[1,")).unwrap_err().contains("EOF"));
    assert_eq!(handle_response(Err("no route".into())).unwrap_err(), "no route");
    let long = "a".repeat(501);
    assert_eq!(
        handle_response(bad(&long)).unwrap_err(),
        format!("AgentPhone API error 422 Unprocessable Entity: {}…", "a".repeat(500))
    );
    let exact = "a".repeat(500);
    assert!(handle_response(bad(&exact)).unwrap_err().ends_with("a"));
    assert_eq!(
        answer_of(&ok("x"), Err("not JSON".into())).unwrap_err(),
        "not JSON"
    );
}

#[test]
fn a_body_that_cannot_be_cut_is_not_reportable() {
    let split = format!("{}é", "a".repeat(499));
    assert!(!is_reportable(&bad(&split)));
    assert!(is_reportable(&ok(&split)));
    assert!(is_reportable(&bad(&format!("{}éa", "a".repeat(498)))));
    assert!(is_reportable(&Err("x".into())));
}

#[test]
fn schema_lists_all_actions() {
    let schema = make_tool().parameters_schema();
    let properties = schema.get("properties").unwrap();
    let action = properties.get("action").unwrap();
    let actions = action.get("enum").unwrap().as_array().unwrap();
    assert_eq!(actions.len(), 13);
    for action in actions {
        assert!(operation_of(action.as_str().unwrap()).is_some());
    }
    assert_eq!(
        print_json(properties.get("limit").unwrap()),
        r#"{"description":"Number of results to return (default: 20)","maximum":100,"minimum":1,"type":"integer"}"#
    );
    assert_eq!(print_json(schema.get("required").unwrap()), r#"["action"]"#);
    assert_eq!(properties.get("voice").unwrap().str_at("type"), Some("string"));
    assert_eq!(properties.get("metadata").unwrap().str_at("type"), Some("object"));
}

#[test]
fn sessions_are_tracked_where_there_is_a_tracker() {
    let mut tool = make_tool();
    tool.register_outbound_session("+1", "c", None, true);
    assert!(tool.outbound_tracker().is_none());
    let mut tracking = make_tool().with_outbound_tracker(new_outbound_tracker());
    tracking.register_outbound_session_at("+1", "c", Some("p"), false, 100);
    let tracker = tracking.outbound_tracker().unwrap();
    assert!(tracker.is_active_at("+1", 1900));
    assert!(!tracker.is_active_at("+1", 1901));
    assert_eq!(tracker.purpose_at("+1", 100).as_deref(), Some("p"));
    assert!(!tracker.is_active_at("+2", 100));
}
