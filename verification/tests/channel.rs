use agent_tools::channels::agentphone::{find_conversation, AgentPhoneChannel, SendStep};
use agent_tools::channels::message::SendMessage;
use agent_tools::channels::session::{new_outbound_tracker, OutboundSession};
use agent_tools::clock::{
    cast_signed, cast_unsigned, elapsed_seconds, seconds_at, unix_seconds, within,
};
use agent_tools::config::{PhoneNumberConfig, PhoneNumberEntry, PhoneTrustLevel};
use agent_tools::http::{HttpReply, HttpRequest, Method};
use agent_tools::json::Json;
use agent_tools::json_text::{parse_json, print_json};
use agent_tools::tools::agentphone_tool::Registration;
use hmac::{Hmac, Mac};
use sha2::Sha256;
use std::time::{Duration, SystemTime};

fn json(text: &str) -> Json {
    parse_json(text).unwrap()
}

fn make_channel() -> AgentPhoneChannel {
    AgentPhoneChannel::new(
        "test-api-key".into(),
        "test-webhook-secret".into(),
        vec![PhoneNumberEntry::Simple("+15551234567".into())],
    )
    .with_agent_id(Some("agt_test123".into()))
}

fn header<'a>(request: &'a HttpRequest, name: &str) -> Option<&'a str> {
    request.headers.iter().find(|(n, _)| n == name).map(|(_, v)| v.as_str())
}

fn reply(code: u16, status: &str, body: &str) -> Result<HttpReply, String> {
    Ok(HttpReply { code, status: status.into(), body: body.into() })
}

#[test]
fn channel_name() {
    let ch = make_channel();
    assert_eq!(ch.name(), "agentphone");
}

#[test]
fn is_number_allowed_exact_match() {
    let ch = make_channel();
    assert!(ch.is_number_allowed("+15551234567"));
    assert!(!ch.is_number_allowed("+15559999999"));
}

#[test]
fn is_number_allowed_wildcard() {
    let ch = AgentPhoneChannel::new(
        "key".into(),
        "secret".into(),
        vec![PhoneNumberEntry::Simple("*".into())],
    );
    assert!(ch.is_number_allowed("+15559999999"));
}

#[test]
fn is_number_allowed_empty_denies_all() {
    let ch = AgentPhoneChannel::new("key".into(), "secret".into(), vec![]);
    assert!(!ch.is_number_allowed("+15551234567"));
}

#[test]
fn trusted_number_check() {
    let ch = AgentPhoneChannel::new(
        "key".into(),
        "secret".into(),
        vec![
            PhoneNumberEntry::Simple("+15551234567".into()),
            PhoneNumberEntry::Detailed(PhoneNumberConfig {
                number: "+15559876543".into(),
                trust: PhoneTrustLevel::Scoped,
                purpose: Some("dentist appointment".into()),
            }),
        ],
    );
    assert!(ch.is_trusted_number("+15551234567"));
    assert!(!ch.is_trusted_number("+15559876543"));
    assert!(!ch.is_trusted_number("+15550000000"));
}

#[test]
fn get_trust_level_and_purpose() {
    let ch = AgentPhoneChannel::new(
        "key".into(),
        "secret".into(),
        vec![
            PhoneNumberEntry::Simple("+15551234567".into()),
            PhoneNumberEntry::Detailed(PhoneNumberConfig {
                number: "+15559876543".into(),
                trust: PhoneTrustLevel::Scoped,
                purpose: Some("appointment scheduling".into()),
            }),
        ],
    );
    assert_eq!(ch.get_trust_level("+15551234567"), Some(PhoneTrustLevel::Trusted));
    assert_eq!(ch.get_trust_level("+15559876543"), Some(PhoneTrustLevel::Scoped));
    assert_eq!(ch.get_trust_level("+15550000000"), None);
    assert_eq!(ch.get_number_purpose("+15551234567"), None);
    assert_eq!(ch.get_number_purpose("+15559876543"), Some("appointment scheduling"));
}

#[test]
fn outbound_session_tracking() {
    let mut ch = make_channel();
    let number = "+15559999999";

    // No session
    assert!(!ch.has_active_outbound(number));

    // Register session
    ch.register_outbound(number, "call_123", Some("dentist"), true);
    assert!(ch.has_active_outbound(number));
    assert_eq!(ch.get_outbound_purpose(number), Some("dentist".to_string()));

    // Clear session
    ch.clear_outbound(number);
    assert!(!ch.has_active_outbound(number));
}

#[test]
fn should_accept_inbound_uses_allowlist_only() {
    let mut ch = make_channel();

    // Allowed number is accepted
    assert!(ch.should_accept_inbound("+15551234567"));

    // Unknown number is rejected even with active outbound session
    let number = "+15559999999";
    ch.register_outbound(number, "call_123", None, true);
    assert!(!ch.should_accept_inbound(number));
}

#[test]
fn parse_sms_event() {
    let ch = make_channel();
    let payload = json(
        r#"{
            "event": "agent.message",
            "channel": "sms",
            "timestamp": "2025-01-15T12:00:00Z",
            "agentId": "agt_test123",
            "data": {
                "conversationId": "conv_def456",
                "numberId": "num_xyz789",
                "from": "+15551234567",
                "to": "+15550001111",
                "message": "Hello, I need help",
                "direction": "inbound",
                "receivedAt": "2025-01-15T12:00:00Z"
            }
        }"#,
    );

    let messages = ch.parse_webhook_payload(&payload);
    assert_eq!(messages.len(), 1);
    assert_eq!(messages[0].sender, "+15551234567");
    assert!(messages[0].content.contains("Hello, I need help"));
    assert_eq!(messages[0].channel, "agentphone_sms");
    assert_eq!(messages[0].thread_ts.as_deref(), Some("conv_def456"));
}

#[test]
fn parse_voice_event() {
    let ch = make_channel();
    let payload = json(
        r#"{
            "event": "agent.message",
            "channel": "voice",
            "timestamp": "2025-01-15T14:00:05Z",
            "agentId": "agt_test123",
            "data": {
                "callId": "call_abc123",
                "numberId": "num_xyz789",
                "from": "+15551234567",
                "to": "+15550001111",
                "status": "in-progress",
                "transcript": "I need help with my order",
                "confidence": 0.95,
                "direction": "inbound"
            }
        }"#,
    );

    let messages = ch.parse_webhook_payload(&payload);
    assert_eq!(messages.len(), 1);
    assert!(messages[0].content.contains("I need help with my order"));
    assert!(messages[0].content.contains("0.95"));
    assert_eq!(messages[0].channel, "agentphone_voice");
    assert_eq!(messages[0].thread_ts.as_deref(), Some("call_abc123"));
}

#[test]
fn parse_unauthorized_number_dropped() {
    let ch = make_channel();
    let payload = json(
        r#"{
            "event": "agent.message",
            "channel": "sms",
            "timestamp": "2025-01-15T12:00:00Z",
            "data": {
                "from": "+15559999999",
                "message": "Should be rejected"
            }
        }"#,
    );

    let messages = ch.parse_webhook_payload(&payload);
    assert!(messages.is_empty());
}

#[test]
fn parse_unknown_event_ignored() {
    let ch = make_channel();
    let payload = json(r#"{"event": "agent.status", "channel": "sms", "data": {}}"#);

    let messages = ch.parse_webhook_payload(&payload);
    assert!(messages.is_empty());
}

#[test]
fn verify_signature_no_secret_accepts_all() {
    let ch = AgentPhoneChannel::new("key".into(), String::new(), Vec::new());
    assert!(ch.verify_signature(b"body", None, None));
}

#[test]
fn verify_signature_missing_header_rejects() {
    let ch = make_channel();
    assert!(!ch.verify_signature(b"body", None, None));
}

#[test]
fn verify_signature_valid() {
    let secret = "test-webhook-secret";
    let ch = AgentPhoneChannel::new("key".into(), secret.into(), Vec::new());

    // Use current timestamp to avoid replay protection rejection
    let now = std::time::SystemTime::now()
        .duration_since(std::time::UNIX_EPOCH)
        .unwrap()
        .as_secs();
    let timestamp = now.to_string();
    let body = b"test body";
    let signed_payload = format!("{timestamp}.test body");

    let mut mac = Hmac::<Sha256>::new_from_slice(secret.as_bytes()).unwrap();
    mac.update(signed_payload.as_bytes());
    let sig = hex::encode(mac.finalize().into_bytes());

    assert!(ch.verify_signature(body, Some(&format!("sha256={sig}")), Some(&timestamp)));
}

#[test]
fn verify_signature_invalid_rejected() {
    let ch = make_channel();
    assert!(!ch.verify_signature(b"body", Some("sha256=deadbeef"), Some("1705312800")));
}

#[test]
fn parse_sms_with_recent_history() {
    let ch = make_channel();
    let payload = json(
        r#"{
            "event": "agent.message",
            "channel": "sms",
            "timestamp": "2025-01-15T12:05:00Z",
            "data": {
                "conversationId": "conv_1",
                "from": "+15551234567",
                "message": "Can I move it to Thursday?",
                "direction": "inbound"
            },
            "recentHistory": [
                {
                    "body": "Hi, this is a reminder about your appointment tomorrow at 2pm.",
                    "direction": "outbound",
                    "receivedAt": "2025-01-15T11:58:00Z"
                },
                {
                    "body": "Thanks, can I reschedule?",
                    "direction": "inbound",
                    "receivedAt": "2025-01-15T12:00:00Z"
                }
            ]
        }"#,
    );

    let messages = ch.parse_webhook_payload(&payload);
    assert_eq!(messages.len(), 1);
    let content = &messages[0].content;
    assert!(content.contains("[Conversation history with +15551234567 via sms]"));
    assert!(content.contains("Agent: Hi, this is a reminder"));
    assert!(content.contains("+15551234567: Thanks, can I reschedule?"));
    assert!(content.contains("[Current message]"));
    assert!(content.contains("Can I move it to Thursday?"));
}

#[test]
fn parse_sms_with_conversation_state() {
    let ch = make_channel();
    let payload = json(
        r#"{
            "event": "agent.message",
            "channel": "sms",
            "timestamp": "2025-01-15T12:00:00Z",
            "data": {
                "from": "+15551234567",
                "message": "Yes please"
            },
            "conversationState": {
                "customerName": "Jane Doe",
                "orderId": "ORD-12345"
            }
        }"#,
    );

    let messages = ch.parse_webhook_payload(&payload);
    assert_eq!(messages.len(), 1);
    assert!(messages[0].content.contains("[conversation state:"));
    assert!(messages[0].content.contains("Jane Doe"));
    assert!(messages[0].content.contains("Yes please"));
}

#[test]
fn parse_no_recent_history_still_works() {
    let ch = make_channel();
    let payload = json(
        r#"{
            "event": "agent.message",
            "channel": "sms",
            "timestamp": "2025-01-15T12:00:00Z",
            "data": {
                "from": "+15551234567",
                "message": "Hello"
            }
        }"#,
    );

    let messages = ch.parse_webhook_payload(&payload);
    assert_eq!(messages.len(), 1);
    assert_eq!(messages[0].content, "Hello");
    assert_eq!(messages[0].channel, "agentphone_sms");
}

#[test]
fn builders_and_getters() {
    let ch = AgentPhoneChannel::new("key".into(), "secret".into(), vec![])
        .with_conversation_prompt("Be brief.".into())
        .with_model(Some("fast".into()))
        .with_proxy_url(Some("http://proxy".into()))
        .with_outbound_tracker(new_outbound_tracker());
    assert_eq!(ch.api_key(), "key");
    assert_eq!(ch.webhook_secret(), "secret");
    assert_eq!(ch.conversation_prompt(), "Be brief.");
    assert_eq!(ch.model(), Some("fast"));
    assert_eq!(ch.proxy_url(), Some("http://proxy"));
    assert!(ch.outbound_tracker().get("+1").is_none());
    let plain = AgentPhoneChannel::new("key".into(), "secret".into(), vec![]);
    assert_eq!(plain.conversation_prompt(), "");
    assert_eq!(plain.model(), None);
}

#[test]
fn purpose_of_the_first_entry_that_has_one() {
    let ch = AgentPhoneChannel::new(
        "key".into(),
        "secret".into(),
        vec![
            PhoneNumberEntry::Simple("+1".into()),
            PhoneNumberEntry::Detailed(PhoneNumberConfig {
                number: "*".into(),
                trust: PhoneTrustLevel::Scoped,
                purpose: Some("anyone".into()),
            }),
        ],
    );
    assert_eq!(ch.get_number_purpose("+1"), Some("anyone"));
    assert_eq!(ch.get_trust_level("+1"), Some(PhoneTrustLevel::Trusted));
    assert_eq!(ch.get_trust_level("+2"), Some(PhoneTrustLevel::Scoped));
    assert!(!ch.is_trusted_number("+2"));
    assert!(ch.is_number_allowed("+2"));
}

#[test]
fn scoped_number_is_not_trusted_beside_a_wildcard() {
    let ch = AgentPhoneChannel::new(
        "key".into(),
        "secret".into(),
        vec![
            PhoneNumberEntry::Detailed(PhoneNumberConfig {
                number: "+15559876543".into(),
                trust: PhoneTrustLevel::Scoped,
                purpose: None,
            }),
            PhoneNumberEntry::Simple("*".into()),
        ],
    );
    assert_eq!(ch.get_trust_level("+15559876543"), Some(PhoneTrustLevel::Scoped));
    assert!(!ch.is_trusted_number("+15559876543"));
    assert!(ch.is_number_allowed("+15559876543"));
    assert!(ch.is_trusted_number("+15551234567"));
}

#[test]
fn sessions_end_after_their_time() {
    let mut ch = make_channel();
    ch.register_outbound_at("+1", "call", Some("p"), true, 1000);
    ch.register_outbound_at("+2", "conv", None, false, 1000);
    assert!(ch.has_active_outbound_at("+1", 4600));
    assert!(!ch.has_active_outbound_at("+1", 4601));
    assert!(ch.has_active_outbound_at("+2", 2800));
    assert!(!ch.has_active_outbound_at("+2", 2801));
    assert_eq!(ch.get_outbound_purpose_at("+1", 4600).as_deref(), Some("p"));
    assert_eq!(ch.get_outbound_purpose_at("+1", 4601), None);
    assert_eq!(ch.get_outbound_purpose_at("+2", 1000), None);
    ch.register_outbound_at("+1", "later", None, false, 5000);
    assert_eq!(ch.outbound_tracker().get("+1").unwrap().call_id, "later");
    assert_eq!(ch.outbound_tracker().get("+1").unwrap().ttl_secs, 1800);
}

#[test]
fn a_session_without_end_never_expires() {
    let session = OutboundSession {
        call_id: "c".into(),
        started_at: u64::MAX,
        purpose: None,
        ttl_secs: 10,
    };
    assert!(!session.is_expired_at(u64::MAX));
    let old = OutboundSession { call_id: "c".into(), started_at: 1, purpose: None, ttl_secs: 1 };
    assert!(old.is_expired());
}

#[test]
fn sms_content_time_and_identity_are_exact() {
    let ch = make_channel();
    let payload = json(
        r#"{
            "event": "agent.message",
            "channel": "sms",
            "timestamp": "2025-01-15T12:00:00Z",
            "data": {"callId": "call_1", "from": "15551234567", "message": "Hi"},
            "recentHistory": [
                {"body": "One", "direction": "inbound", "receivedAt": "2025-01-15T11:58:00Z"},
                {"body": "", "direction": "inbound"},
                {"body": "Two"}
            ],
            "conversationState": {"b": 1, "a": [true, null]}
        }"#,
    );
    let messages = ch.parse_webhook_payload_at(&payload, 7, "id-1".into());
    assert_eq!(messages.len(), 1);
    let message = &messages[0];
    assert_eq!(message.id, "id-1");
    assert_eq!(message.sender, "+15551234567");
    assert_eq!(message.reply_target, "+15551234567");
    assert_eq!(message.timestamp, 1736942400);
    assert_eq!(message.thread_ts.as_deref(), Some("call_1"));
    assert_eq!(message.interruption_scope_id, None);
    assert!(message.attachments.is_empty());
    assert_eq!(
        message.content,
        "[Conversation history with +15551234567 via sms]\n\
         [2025-01-15T11:58] +15551234567: One\n\
         [] Agent: Two\n\
         [Current message]\n\
         [conversation state: {\"a\":[true,null],\"b\":1}] \n\
         Hi"
    );
}

#[test]
fn voice_content_is_exact() {
    let ch = make_channel();
    let event = |confidence: &str| {
        let text = format!(
            r#"{{"event": "agent.message", "channel": "voice", "timestamp": "soon",
                "data": {{"from": "+15551234567", "transcript": "Yes"{confidence},
                          "conversationId": 5, "callId": "c"}}}}"#
        );
        ch.parse_webhook_payload_at(&json(&text), 42, "id".into()).remove(0)
    };
    assert_eq!(event(r#", "confidence": 0.956"#).content, "[voice call, confidence: 0.96] Yes");
    assert_eq!(event(r#", "confidence": 1"#).content, "[voice call, confidence: 1.00] Yes");
    assert_eq!(event(r#", "confidence": 1e-3"#).content, "[voice call, confidence: 0.00] Yes");
    assert_eq!(event(r#", "confidence": 0.0"#).content, "[voice call] Yes");
    assert_eq!(event(r#", "confidence": -0.5"#).content, "[voice call] Yes");
    assert_eq!(event(r#", "confidence": "high""#).content, "[voice call] Yes");
    assert_eq!(event("").content, "[voice call] Yes");
    assert_eq!(event("").timestamp, 42);
    assert_eq!(event("").thread_ts, None);
    assert_eq!(event("").channel, "agentphone_voice");
}

#[test]
fn times_before_the_epoch_are_read_as_unsigned() {
    let ch = make_channel();
    let payload = json(
        r#"{"event": "agent.message", "channel": "sms", "timestamp": "1969-12-31T23:59:59Z",
            "data": {"from": "+15551234567", "message": "Hi"}}"#,
    );
    let messages = ch.parse_webhook_payload_at(&payload, 7, "id".into());
    assert_eq!(messages[0].timestamp, u64::MAX);
    assert_eq!(cast_unsigned(-2), u64::MAX - 1);
    assert_eq!(cast_unsigned(5), 5);
    assert_eq!(cast_signed(u64::MAX), -1);
    assert_eq!(cast_signed(5), 5);
}

#[test]
fn counterparty_is_the_receiver_of_the_agents_own_message() {
    let ch = make_channel().with_agent_phone_number(Some("+15551234567".into()));
    let event = |to: &str| {
        let text = format!(
            r#"{{"event": "agent.message", "channel": "sms",
                "data": {{"from": "+15551234567", "message": "Hi"{to}}}}}"#
        );
        ch.parse_webhook_payload_at(&json(&text), 0, "id".into()).remove(0).sender
    };
    assert_eq!(event(r#", "to": "15550001111""#), "+15550001111");
    assert_eq!(event(r#", "to": "+15550001111""#), "+15550001111");
    assert_eq!(event(r#", "to": """#), "+15551234567");
    assert_eq!(event(""), "+15551234567");
}

#[test]
fn events_that_say_nothing_are_dropped() {
    let ch = make_channel();
    let dropped = |text: &str| ch.parse_webhook_payload_at(&json(text), 0, "id".into()).is_empty();
    assert!(dropped(r#"{"event": "agent.message", "channel": "sms"}"#));
    assert!(dropped(r#"{"event": "agent.message", "channel": "sms", "data": {}}"#));
    assert!(dropped(
        r#"{"event": "agent.message", "channel": "sms", "data": {"from": "+15551234567"}}"#
    ));
    assert!(dropped(
        r#"{"event": "agent.message", "channel": "voice",
            "data": {"from": "+15551234567", "transcript": ""}}"#
    ));
    assert!(dropped(
        r#"{"event": "agent.message", "channel": "fax",
            "data": {"from": "+15551234567", "message": "Hi"}}"#
    ));
    assert!(dropped("[]"));
}

#[test]
fn message_ids_are_random_uuids() {
    let ch = make_channel();
    let payload = json(
        r#"{"event": "agent.message", "channel": "sms",
            "data": {"from": "+15551234567", "message": "Hi"}}"#,
    );
    let id = ch.parse_webhook_payload(&payload)[0].id.clone();
    let other = ch.parse_webhook_payload(&payload)[0].id.clone();
    assert_ne!(id, other);
    assert_eq!(id.len(), 36);
    let chars: Vec<char> = id.chars().collect();
    assert_eq!(chars[14], '4');
    assert!("89ab".contains(chars[19]));
    for i in [8, 13, 18, 23] {
        assert_eq!(chars[i], '-');
    }
}

#[test]
fn history_that_cannot_be_cut_is_not_readable() {
    let ch = make_channel();
    let event = |from: &str, time: &str| {
        json(&format!(
            r#"{{"event": "agent.message", "channel": "sms",
                "data": {{"from": "{from}", "message": "Hi"}},
                "recentHistory": [{{"body": "x", "receivedAt": "{time}"}}]}}"#
        ))
    };
    assert!(ch.is_readable(&event("+15551234567", "2025-01-15T11:58:00Z")));
    assert!(ch.is_readable(&event("+15551234567", "short")));
    assert!(!ch.is_readable(&event("+15551234567", "123456789012345é")));
    assert!(ch.is_readable(&event("+15559999999", "123456789012345é")));
}

#[test]
fn signature_of_a_known_vector() {
    let ch = AgentPhoneChannel::new("key".into(), "Jefe".into(), Vec::new());
    let body = b"what do ya want for nothing?";
    let tag = "5bdcc146bf60754e6a042426089575c75a003f089d2739839dec58b964ec3843";
    assert!(ch.verify_signature(body, Some(&format!("sha256={tag}")), None));
    assert!(ch.verify_signature(body, Some(&format!("sha256={}", tag.to_uppercase())), None));
    assert!(!ch.verify_signature(b"other", Some(&format!("sha256={tag}")), None));
    assert!(!ch.verify_signature(body, Some(tag), None));
    assert!(!ch.verify_signature(body, Some(&format!("sha256={}", &tag[..62])), None));
    assert!(!ch.verify_signature(body, Some(&format!("sha256={}", &tag[..63])), None));
    assert!(!ch.verify_signature(body, Some("sha256=zz"), None));
    assert!(!ch.verify_signature(body, Some("sha256="), None));
}

#[test]
fn signature_covers_the_timestamp_and_expires() {
    let ch = AgentPhoneChannel::new("key".into(), "s".into(), Vec::new());
    let sign = |payload: &[u8]| {
        let mut mac = Hmac::<Sha256>::new_from_slice(b"s").unwrap();
        mac.update(payload);
        format!("sha256={}", hex::encode(mac.finalize().into_bytes()))
    };
    let sig = sign(b"1000.body");
    let at = |now: u64| ch.verify_signature_at(b"body", Some(&sig), Some("1000"), now);
    assert!(at(1000));
    assert!(at(1300));
    assert!(at(700));
    assert!(!at(1301));
    assert!(!at(699));
    assert!(!ch.verify_signature_at(b"body", Some(&sig), Some("1001"), 1000));
    // A time stamp that is no number is signed, but never stale.
    let odd = sign(b"soon.body");
    assert!(ch.verify_signature_at(b"body", Some(&odd), Some("soon"), 99));
    // A body that is no text is signed byte by byte.
    let raw = sign(b"1000.\xffx");
    assert!(ch.verify_signature_at(b"\xffx", Some(&raw), Some("1000"), 1000));
    assert!(ch.verify_signature_at(b"\xff", Some(&sign(b"\xff")), None, 0));
    let shown = sign("1000.\u{fffd}x".as_bytes());
    assert!(!ch.verify_signature_at(b"\xffx", Some(&shown), Some("1000"), 1000));
    assert!(!ch.verify_signature_at(b"\xff", Some(&sign("\u{fffd}".as_bytes())), None, 0));
    assert!(within(5, 305, 300));
    assert!(!within(5, 306, 300));
}

#[test]
fn seconds_are_counted_from_the_epoch() {
    let epoch = SystemTime::UNIX_EPOCH;
    let later = epoch + Duration::new(5, 999_999_999);
    assert_eq!(seconds_at(&epoch), 0);
    assert_eq!(seconds_at(&later), 5);
    assert_eq!(seconds_at(&(epoch - Duration::from_secs(7))), 0);
    assert_eq!(elapsed_seconds(&Ok(Duration::new(9, 1))), 9);
    assert_eq!(elapsed_seconds(&epoch.duration_since(later)), 0);
}

#[test]
fn the_clock_runs() {
    assert!(unix_seconds() > 1_700_000_000);
}

#[test]
fn sync_request_carries_voice_and_greeting() {
    assert!(make_channel().sync_agent_config().is_none());
    let without_agent = AgentPhoneChannel::new("k".into(), "s".into(), vec![])
        .with_voice(Some("Polly.Amy".into()));
    assert!(without_agent.sync_agent_config().is_none());
    let request = make_channel()
        .with_voice(Some("Polly.Amy".into()))
        .with_begin_message(Some("Hello!".into()))
        .sync_agent_config()
        .unwrap();
    assert_eq!(request.method, Method::Patch);
    assert_eq!(request.url, "https://api.agentphone.to/v1/agents/agt_test123");
    assert_eq!(header(&request, "Authorization"), Some("Bearer test-api-key"));
    assert_eq!(
        print_json(request.body.as_ref().unwrap()),
        r#"{"beginMessage":"Hello!","voice":"Polly.Amy","voiceMode":"webhook"}"#
    );
}

#[test]
fn any_reply_ends_the_sync_well() {
    let ch = make_channel();
    for (code, status) in [(200, "200 OK"), (404, "404 Not Found"), (503, "503 Service Unavailable")] {
        let reply = Ok(HttpReply { code, status: status.into(), body: "whatever".into() });
        assert_eq!(ch.sync_finished(&reply), Ok(()));
    }
    assert_eq!(ch.sync_finished(&Err("no route".into())), Err("no route".to_string()));
}

#[test]
fn a_contact_of_the_tool_is_registered() {
    let mut ch = make_channel();
    let call = Registration {
        phone: "+1".into(),
        call_id: "call".into(),
        purpose: Some("p".into()),
        is_voice: true,
    };
    let sms =
        Registration { phone: "+2".into(), call_id: "conv".into(), purpose: None, is_voice: false };
    ch.register(&call, 1000);
    ch.register(&sms, 1000);
    assert!(ch.has_active_outbound_at("+1", 4600));
    assert!(!ch.has_active_outbound_at("+1", 4601));
    assert!(ch.has_active_outbound_at("+2", 2800));
    assert!(!ch.has_active_outbound_at("+2", 2801));
    assert_eq!(ch.get_outbound_purpose_at("+1", 1000).as_deref(), Some("p"));
    let session = ch.outbound_tracker().get("+1").unwrap();
    assert_eq!(session.call_id, "call");
    assert_eq!(session.started_at, 1000);
    assert!(!ch.is_number_allowed("+1"));
}

#[test]
fn sending_goes_through_an_existing_conversation() {
    let ch = make_channel();
    let message = SendMessage { recipient: "+15551234567".into(), content: "Hi".into() };
    let request = ch.send_start(&message).unwrap();
    assert_eq!(request.method, Method::Get);
    assert_eq!(request.url, "https://api.agentphone.to/v1/agents/agt_test123/conversations");
    assert_eq!(request.query, vec![("limit".to_string(), "100".to_string())]);
    let listing = r#"[{"participant": "+1", "id": "c1"}, {"participant": "15551234567"},
                      {"participant": "15551234567", "id": "c2"}]"#;
    match ch.send_listed(&message, reply(200, "200 OK", listing)) {
        SendStep::Send(request) => {
            assert_eq!(request.method, Method::Patch);
            assert_eq!(request.url, "https://api.agentphone.to/v1/conversations/c2");
            assert_eq!(
                print_json(request.body.as_ref().unwrap()),
                r#"{"metadata":{"_reply":"Hi"}}"#
            );
        }
        other => panic!("unexpected step: {other:?}"),
    }
    assert!(matches!(
        ch.send_listed(&message, reply(200, "200 OK", "[]")),
        SendStep::NoConversation
    ));
    assert!(ch.send_finished(reply(204, "204 No Content", "")).is_ok());
}

#[test]
fn sending_reports_each_error() {
    let ch = make_channel();
    let message = SendMessage { recipient: "+15551234567".into(), content: "Hi".into() };
    let stranger = SendMessage { recipient: "+15559999999".into(), content: "Hi".into() };
    let without_agent = AgentPhoneChannel::new("k".into(), "s".into(), vec![]);
    assert_eq!(
        without_agent.send_start(&message).unwrap_err(),
        "AgentPhone: agent_id required to send messages"
    );
    assert_eq!(
        ch.send_start(&stranger).unwrap_err(),
        "AgentPhone: recipient +15559999999 is not in allowed_numbers"
    );
    let failed = |r| match ch.send_listed(&message, r) {
        SendStep::Failed(error) => error,
        other => panic!("unexpected step: {other:?}"),
    };
    assert_eq!(
        failed(reply(500, "500 Internal Server Error", "oops")),
        "AgentPhone: failed to list conversations: 500 Internal Server Error — oops"
    );
    assert_eq!(failed(reply(200, "200 OK", "<html>")), "error decoding response body");
    assert_eq!(failed(Err("no route".into())), "no route");
    assert_eq!(
        ch.send_finished(reply(404, "404 Not Found", "x")).unwrap_err(),
        "AgentPhone API error: 404 Not Found"
    );
    assert_eq!(ch.send_finished(Err("no route".into())).unwrap_err(), "no route");
}

#[test]
fn an_active_session_permits_sending() {
    let mut ch = make_channel();
    let message = SendMessage { recipient: "+15559999999".into(), content: "Hi".into() };
    ch.register_outbound_at("+15559999999", "call", None, true, 1000);
    assert!(ch.send_start_at(&message, 1000).is_ok());
    assert!(ch.send_start_at(&message, 4601).is_err());
}

#[test]
fn conversations_are_found_by_number() {
    let listing = json(r#"[{"id": "a"}, {"participant": "", "id": "b"}]"#);
    assert_eq!(find_conversation(&listing, "1").as_deref(), Some("b"));
    assert_eq!(find_conversation(&listing, "+1"), None);
    assert_eq!(find_conversation(&json("{}"), "1"), None);
}

#[test]
fn health_is_a_successful_reply() {
    let ch = make_channel();
    let request = ch.health_request();
    assert_eq!(request.url, "https://api.agentphone.to/v1/agents");
    assert_eq!(request.query, vec![("limit".to_string(), "1".to_string())]);
    assert!(ch.health_check(&reply(200, "200 OK", "")));
    assert!(ch.health_check(&reply(299, "299", "")));
    assert!(!ch.health_check(&reply(300, "300", "")));
    assert!(!ch.health_check(&Err("no route".into())));
}
