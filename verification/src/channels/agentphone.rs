//! The AgentPhone channel: inbound SMS and voice transcripts through webhooks,
//! outbound SMS through the AgentPhone API.
use vstd::prelude::*;
use vstd::utf8::encode_utf8;
use std::time::SystemTime;
use crate::channels::message::{
    message_models, new_message_id, uuid_v4_text, ChannelMessage, MessageModel, SendMessage,
};
use crate::channels::session::{active_at, active_purpose, new_session, session_ttl, SessionModel};
use crate::channels::webhook::{
    counterparty_of, e164, enrich, enriched, event_time, has_content, history_cuttable,
    history_text, is_history_cuttable, raw_content, read_content, read_thread, read_time,
    resolve_counterparty, says_something, state_text, thread_of, to_e164,
};
use crate::clock::{cast_signed, epoch_seconds, signed_bits, unix_seconds, within};
use crate::config::{
    is_allowed, is_trusted, number_allowed, number_purpose, number_trust, purpose_of,
    trust_of, PhoneNumberEntry, PhoneTrustLevel,
};
use crate::http::{
    body_request, plain_request, reply_model, HttpReply, HttpRequest, Method, ReplyModel,
    RequestModel,
};
use crate::json::{field, items_model, items_of, text_at, with_text, Json, JsonModel, JsonObject};
use crate::json_text::{json_read, parse_json};
use crate::signature::{
    append_bytes, decode_hex, hex_bytes, hex_encoded, hmac_matches, hmac_sha256, law_hex_round_trip,
};
use crate::text::{
    after_prefix, borrowed, cat2, cat3, cat4, law_decimal_reads_back, opt_str, opt_string, or_text,
    parse_i64, parsed_i64, same, signed_decimal, strip_prefix, text_or,
};
use crate::tools::agentphone_tool::{Registration, RegistrationModel};

pub use crate::channels::session::{new_outbound_tracker, OutboundSession, OutboundSessionTracker};

verus! {

/// The AgentPhone API.
pub const API_BASE: &'static str = "https://api.agentphone.to/v1";

/// The characters of a signature: `sha256=`, and two for each byte of the tag.
pub const SIGNATURE_LEN: usize = 71;

/// How far the time stamp of a webhook may be from the clock, in seconds.
pub const MAX_TIMESTAMP_DRIFT_SECS: u64 = 300;

/// AgentPhone channel: receives inbound SMS and voice call transcripts via
/// webhooks, and sends SMS replies via the AgentPhone API.
pub struct AgentPhoneChannel {
    api_key: String,
    webhook_secret: String,
    agent_id: Option<String>,
    agent_phone_number: Option<String>,
    allowed_numbers: Vec<PhoneNumberEntry>,
    voice: Option<String>,
    begin_message: Option<String>,
    conversation_prompt: String,
    model: Option<String>,
    proxy_url: Option<String>,
    active_outbound: OutboundSessionTracker,
}

/// How a channel is set up, and its outbound sessions.
pub struct ChannelModel {
    pub api_key: Seq<char>,
    pub webhook_secret: Seq<char>,
    pub agent_id: Option<Seq<char>>,
    pub agent_phone_number: Option<Seq<char>>,
    pub allowed_numbers: Seq<PhoneNumberEntry>,
    pub voice: Option<Seq<char>>,
    pub begin_message: Option<Seq<char>>,
    pub conversation_prompt: Seq<char>,
    pub model: Option<Seq<char>>,
    pub proxy_url: Option<Seq<char>>,
    pub sessions: Map<Seq<char>, SessionModel>,
}

impl View for AgentPhoneChannel {
    type V = ChannelModel;

    closed spec fn view(&self) -> ChannelModel {
        ChannelModel {
            api_key: self.api_key@,
            webhook_secret: self.webhook_secret@,
            agent_id: opt_string(self.agent_id),
            agent_phone_number: opt_string(self.agent_phone_number),
            allowed_numbers: self.allowed_numbers@,
            voice: opt_string(self.voice),
            begin_message: opt_string(self.begin_message),
            conversation_prompt: self.conversation_prompt@,
            model: opt_string(self.model),
            proxy_url: opt_string(self.proxy_url),
            sessions: self.active_outbound@,
        }
    }
}

/// Whether the time stamp of a webhook is close enough to the clock. A time
/// stamp that is not a number is not held against it.
pub open spec fn fresh(timestamp: Option<Seq<char>>, now: u64) -> bool {
    match timestamp {
        Some(text) => match parsed_i64(text) {
            Some(ts) => -(MAX_TIMESTAMP_DRIFT_SECS as int) <= signed_bits(now) - ts
                <= MAX_TIMESTAMP_DRIFT_SECS,
            None => true,
        },
        None => true,
    }
}

/// What AgentPhone signs: the time stamp, a dot and the body as it was received,
/// or the body alone where there is no time stamp.
pub open spec fn signed_payload(body: Seq<u8>, timestamp: Option<Seq<char>>) -> Seq<u8> {
    match timestamp {
        Some(text) => encode_utf8(text) + encode_utf8("."@) + body,
        None => body,
    }
}

/// The signature of a webhook under a secret.
pub open spec fn webhook_tag(
    secret: Seq<char>,
    body: Seq<u8>,
    timestamp: Option<Seq<char>>,
) -> Seq<u8> {
    hmac_sha256(encode_utf8(secret), signed_payload(body, timestamp))
}

/// Whether a webhook is accepted: there is no secret, or it is fresh and carries
/// its signature in hexadecimal.
pub open spec fn signature_accepted(
    secret: Seq<char>,
    body: Seq<u8>,
    signature: Option<Seq<char>>,
    timestamp: Option<Seq<char>>,
    now: u64,
) -> bool {
    secret.len() == 0 || {
        &&& signature is Some
        &&& after_prefix(signature->0, "sha256="@) is Some
        &&& fresh(timestamp, now)
        &&& hex_bytes(after_prefix(signature->0, "sha256="@)->0) == Some(
            webhook_tag(secret, body, timestamp),
        )
    }
}

/// The kind of channel that an event comes through.
pub open spec fn event_channel(payload: JsonModel) -> Seq<char> {
    text_or(text_at(payload, "channel"@), ""@)
}

/// The sender of an event, as it is given.
pub open spec fn event_from(data: JsonModel) -> Seq<char> {
    text_or(text_at(data, "from"@), ""@)
}

/// The receiver of an event, as it is given.
pub open spec fn event_to(data: JsonModel) -> Seq<char> {
    text_or(text_at(data, "to"@), ""@)
}

/// Whether the data of an event has a sender that the list allows, and says
/// something through a known kind of channel.
pub open spec fn data_accepted(
    allowed: Seq<PhoneNumberEntry>,
    channel: Seq<char>,
    data: JsonModel,
) -> bool {
    &&& event_from(data).len() > 0
    &&& number_allowed(allowed, e164(event_from(data)))
    &&& has_content(channel, data)
}

/// The data of an event that the agent is to see: there is some exactly where
/// the event is a message, and its data is accepted.
pub open spec fn incoming_data(allowed: Seq<PhoneNumberEntry>, payload: JsonModel) -> Option<
    JsonModel,
> {
    if text_or(text_at(payload, "event"@), ""@) != "agent.message"@ {
        None
    } else {
        match field(payload, "data"@) {
            None => None,
            Some(data) => if data_accepted(allowed, event_channel(payload), data) {
                Some(data)
            } else {
                None
            },
        }
    }
}

/// The message that the agent sees of an event with accepted data.
pub open spec fn incoming_message(
    agent_number: Option<Seq<char>>,
    payload: JsonModel,
    data: JsonModel,
    now: u64,
    id: Seq<char>,
) -> MessageModel {
    let channel = event_channel(payload);
    let counterparty = counterparty_of(agent_number, event_from(data), event_to(data));
    MessageModel {
        id,
        sender: counterparty,
        reply_target: counterparty,
        content: enriched(payload, channel, counterparty, raw_content(channel, data)->0),
        channel: "agentphone_"@ + channel,
        timestamp: event_time(payload, now),
        thread_ts: thread_of(data),
        interruption_scope_id: None,
        attachments: Seq::empty(),
    }
}

/// The messages that the agent sees of an event: one or none.
pub open spec fn webhook_messages(
    allowed: Seq<PhoneNumberEntry>,
    agent_number: Option<Seq<char>>,
    payload: JsonModel,
    now: u64,
    id: Seq<char>,
) -> Seq<MessageModel> {
    match incoming_data(allowed, payload) {
        Some(data) => seq![incoming_message(agent_number, payload, data, now, id)],
        None => Seq::empty(),
    }
}

/// Whether the messages of an event can be made: where the agent is to see it,
/// the times of its history can be cut.
pub open spec fn readable(allowed: Seq<PhoneNumberEntry>, payload: JsonModel) -> bool {
    incoming_data(allowed, payload) is Some ==> history_cuttable(payload)
}

/// Whether a participant of a conversation is the given number, with or without
/// its plus sign.
pub open spec fn is_participant(participant: Seq<char>, number: Seq<char>) -> bool {
    participant == number || participant == text_or(after_prefix(number, "+"@), ""@)
}

/// The identifier of a conversation, if it is one with the given number.
pub open spec fn conversation_with(conversation: JsonModel, number: Seq<char>) -> Option<Seq<char>> {
    match text_at(conversation, "participant"@) {
        Some(participant) => if is_participant(participant, number) {
            text_at(conversation, "id"@)
        } else {
            None
        },
        None => None,
    }
}

/// The first conversation of a list that is one with the given number.
pub open spec fn first_conversation(items: Seq<JsonModel>, number: Seq<char>) -> Option<Seq<char>>
    decreases items.len(),
{
    if items.len() == 0 {
        None
    } else if conversation_with(items[0], number) is Some {
        conversation_with(items[0], number)
    } else {
        first_conversation(items.drop_first(), number)
    }
}

/// The conversation with the given number in what the API lists.
pub open spec fn found_conversation(listing: JsonModel, number: Seq<char>) -> Option<Seq<char>> {
    match items_of(listing) {
        Some(items) => first_conversation(items, number),
        None => None,
    }
}

/// Looks for the conversation with `number` in what the API lists.
pub fn find_conversation(listing: &Json, number: &str) -> (id: Option<String>)
    ensures
        opt_string(id) == found_conversation(listing@, number@),
{
    let items = match listing.as_array() {
        Some(items) => items,
        None => {
            return None;
        },
    };
    let bare = or_text(strip_prefix(number, "+"), "");
    let ghost models = items_model(items@);
    let mut i: usize = 0;
    assert(models.skip(0) =~= models);
    while i < items.len()
        invariant
            i <= items.len(),
            models == items_model(items@),
            bare@ == text_or(after_prefix(number@, "+"@), ""@),
            items_of(listing@) == Some(models),
            first_conversation(models, number@) == first_conversation(
                models.skip(i as int),
                number@,
            ),
        decreases items.len() - i,
    {
        let conversation = &items[i];
        proof {
            assert(models.skip(i as int)[0] == conversation@);
            assert(models.skip(i as int).drop_first() =~= models.skip(i + 1));
        }
        if let Some(participant) = conversation.str_at("participant") {
            if same(participant, number) || same(participant, bare) {
                if let Some(id) = conversation.str_at("id") {
                    return Some(id.to_string());
                }
            }
        }
        i = i + 1;
    }
    None
}

/// The request that lists the conversations of an agent.
pub open spec fn list_conversations_request(
    agent_id: Seq<char>,
    api_key: Seq<char>,
    timeout_secs: Option<u64>,
) -> RequestModel {
    RequestModel {
        query: seq![("limit"@, "100"@)],
        ..plain_request(
            Method::Get,
            API_BASE@ + "/agents/"@ + agent_id + "/conversations"@,
            api_key,
            timeout_secs,
        )
    }
}

/// The body with which a reply is put into a conversation.
pub open spec fn reply_body(content: Seq<char>) -> JsonModel {
    JsonModel::Object(
        Map::empty().insert(
            "metadata"@,
            JsonModel::Object(Map::empty().insert("_reply"@, JsonModel::Text(content))),
        ),
    )
}

/// The request that puts a reply into a conversation.
pub open spec fn reply_request(
    conversation_id: Seq<char>,
    content: Seq<char>,
    api_key: Seq<char>,
    timeout_secs: Option<u64>,
) -> RequestModel {
    body_request(
        Method::Patch,
        API_BASE@ + "/conversations/"@ + conversation_id,
        api_key,
        reply_body(content),
        timeout_secs,
    )
}

/// Makes the request that lists the conversations of an agent.
pub fn make_list_request(agent_id: &str, api_key: &str, timeout_secs: Option<u64>) -> (request:
    HttpRequest)
    ensures
        request@ == list_conversations_request(agent_id@, api_key@, timeout_secs),
{
    let url = cat4(API_BASE, "/agents/", agent_id, "/conversations");
    let request = HttpRequest::new(Method::Get, url, api_key, timeout_secs).with_query(
        "limit",
        "100",
    );
    assert(request@.query =~= seq![("limit"@, "100"@)]);
    request
}

/// Makes the request that puts a reply into a conversation.
pub fn make_reply_request(
    conversation_id: &str,
    content: &str,
    api_key: &str,
    timeout_secs: Option<u64>,
) -> (request: HttpRequest)
    ensures
        request@ == reply_request(conversation_id@, content@, api_key@, timeout_secs),
{
    let mut metadata = JsonObject::new();
    metadata.set_text("_reply", content);
    let mut body = JsonObject::new();
    body.set("metadata", metadata.into_json());
    let url = cat3(API_BASE, "/conversations/", conversation_id);
    HttpRequest::new(Method::Patch, url, api_key, timeout_secs).with_body(body.into_json())
}

impl ChannelModel {
    /// The channel with an outbound contact of the tool, from the time `now`.
    pub open spec fn with_contact(self, contact: RegistrationModel, now: u64) -> ChannelModel {
        ChannelModel {
            sessions: self.sessions.insert(
                contact.phone,
                new_session(contact.call_id, contact.purpose, contact.is_voice, now),
            ),
            ..self
        }
    }

    /// How a new channel is set up.
    pub open spec fn new(
        api_key: Seq<char>,
        webhook_secret: Seq<char>,
        allowed_numbers: Seq<PhoneNumberEntry>,
    ) -> ChannelModel {
        ChannelModel {
            api_key,
            webhook_secret,
            agent_id: None,
            agent_phone_number: None,
            allowed_numbers,
            voice: None,
            begin_message: None,
            conversation_prompt: Seq::empty(),
            model: None,
            proxy_url: None,
            sessions: Map::empty(),
        }
    }

    /// Whether a number may be written to: it is allowed, or has an active
    /// outbound session.
    pub open spec fn may_send_to(self, phone: Seq<char>, now: u64) -> bool {
        number_allowed(self.allowed_numbers, phone) || active_at(self.sessions, phone, now)
    }

    /// The request that brings the voice and the greeting of the agent up to
    /// date, where there is an agent and something to set.
    pub open spec fn sync_request(self) -> Option<RequestModel> {
        if self.agent_id is None || (self.voice is None && self.begin_message is None) {
            None
        } else {
            let fixed = Map::empty().insert("voiceMode"@, JsonModel::Text("webhook"@));
            Some(
                body_request(
                    Method::Patch,
                    API_BASE@ + "/agents/"@ + self.agent_id->0,
                    self.api_key,
                    JsonModel::Object(
                        with_text(
                            with_text(fixed, "voice"@, self.voice),
                            "beginMessage"@,
                            self.begin_message,
                        ),
                    ),
                    None,
                ),
            )
        }
    }

    /// The first step of sending a message: an error, or the request that lists
    /// the conversations of the agent.
    pub open spec fn send_start(self, recipient: Seq<char>, now: u64) -> Result<
        RequestModel,
        Seq<char>,
    > {
        if self.agent_id is None {
            Err("AgentPhone: agent_id required to send messages"@)
        } else if !self.may_send_to(recipient, now) {
            Err("AgentPhone: recipient "@ + recipient + " is not in allowed_numbers"@)
        } else {
            Ok(list_conversations_request(self.agent_id->0, self.api_key, None))
        }
    }

    /// The request that asks whether the API answers.
    pub open spec fn health_request(self) -> RequestModel {
        RequestModel {
            query: seq![("limit"@, "1"@)],
            ..plain_request(Method::Get, API_BASE@ + "/agents"@, self.api_key, None)
        }
    }
}

/// What to do once the conversations are listed.
#[derive(Debug)]
pub enum SendStep {
    /// The message cannot be sent.
    Failed(String),
    /// There is no conversation to put the message into.
    NoConversation,
    /// The message goes out with this request.
    Send(HttpRequest),
}

/// What a step of sending a message says.
pub enum SendStepModel {
    Failed(Seq<char>),
    NoConversation,
    Send(RequestModel),
}

impl View for SendStep {
    type V = SendStepModel;

    open spec fn view(&self) -> SendStepModel {
        match *self {
            SendStep::Failed(error) => SendStepModel::Failed(error@),
            SendStep::NoConversation => SendStepModel::NoConversation,
            SendStep::Send(request) => SendStepModel::Send(request@),
        }
    }
}

/// What to do with a message once the conversations are listed, given the value
/// that the body of the reply stands for, where it is JSON.
pub open spec fn send_step(
    api_key: Seq<char>,
    recipient: Seq<char>,
    content: Seq<char>,
    reply: Result<ReplyModel, Seq<char>>,
    listing: Option<JsonModel>,
) -> SendStepModel {
    match reply {
        Err(error) => SendStepModel::Failed(error),
        Ok(reply) => if !reply.success() {
            SendStepModel::Failed(
                "AgentPhone: failed to list conversations: "@ + reply.status + " — "@ + reply.body,
            )
        } else {
            match listing {
                None => SendStepModel::Failed("error decoding response body"@),
                Some(listing) => match found_conversation(listing, recipient) {
                    None => SendStepModel::NoConversation,
                    Some(id) => SendStepModel::Send(reply_request(id, content, api_key, None)),
                },
            }
        },
    }
}

/// The value that the body of a reply stands for, where there is a reply and its
/// body is JSON.
pub open spec fn reply_json(reply: Result<ReplyModel, Seq<char>>) -> Option<JsonModel> {
    match reply {
        Ok(reply) => json_read(reply.body),
        Err(_) => None,
    }
}

/// What came of sending a message, by the reply to its last request.
pub open spec fn send_result(reply: Result<ReplyModel, Seq<char>>) -> Result<(), Seq<char>> {
    match reply {
        Err(error) => Err(error),
        Ok(reply) => if reply.success() {
            Ok(())
        } else {
            Err("AgentPhone API error: "@ + reply.status)
        },
    }
}

/// What a result without a value says.
pub open spec fn unit_result(result: Result<(), String>) -> Result<(), Seq<char>> {
    match result {
        Ok(_) => Ok(()),
        Err(error) => Err(error@),
    }
}

impl AgentPhoneChannel {
    /// Create a channel with its API key, its webhook secret and the numbers
    /// that it accepts.
    pub fn new(
        api_key: String,
        webhook_secret: String,
        allowed_numbers: Vec<PhoneNumberEntry>,
    ) -> (channel: Self)
        ensures
            channel@ == ChannelModel::new(api_key@, webhook_secret@, allowed_numbers@),
    {
        let conversation_prompt = String::new();
        assert(conversation_prompt@ =~= Seq::empty());
        AgentPhoneChannel {
            api_key,
            webhook_secret,
            allowed_numbers,
            agent_id: None,
            agent_phone_number: None,
            voice: None,
            begin_message: None,
            conversation_prompt,
            model: None,
            proxy_url: None,
            active_outbound: new_outbound_tracker(),
        }
    }

    /// Set the agent that sends messages.
    pub fn with_agent_id(self, agent_id: Option<String>) -> (channel: Self)
        ensures
            channel@ == (ChannelModel { agent_id: opt_string(agent_id), ..self@ }),
    {
        let mut channel = self;
        channel.agent_id = agent_id;
        channel
    }

    /// Set the agent's own phone number.
    pub fn with_agent_phone_number(self, number: Option<String>) -> (channel: Self)
        ensures
            channel@ == (ChannelModel { agent_phone_number: opt_string(number), ..self@ }),
    {
        let mut channel = self;
        channel.agent_phone_number = number;
        channel
    }

    /// Set the agent's voice.
    pub fn with_voice(self, voice: Option<String>) -> (channel: Self)
        ensures
            channel@ == (ChannelModel { voice: opt_string(voice), ..self@ }),
    {
        let mut channel = self;
        channel.voice = voice;
        channel
    }

    /// Set the agent's greeting.
    pub fn with_begin_message(self, begin_message: Option<String>) -> (channel: Self)
        ensures
            channel@ == (ChannelModel { begin_message: opt_string(begin_message), ..self@ }),
    {
        let mut channel = self;
        channel.begin_message = begin_message;
        channel
    }

    /// Set the conversation prompt preamble.
    pub fn with_conversation_prompt(self, prompt: String) -> (channel: Self)
        ensures
            channel@ == (ChannelModel { conversation_prompt: prompt@, ..self@ }),
    {
        let mut channel = self;
        channel.conversation_prompt = prompt;
        channel
    }

    /// Get the conversation prompt preamble for Request/Response interactions.
    pub fn conversation_prompt(&self) -> (prompt: &str)
        ensures
            prompt@ == self@.conversation_prompt,
    {
        self.conversation_prompt.as_str()
    }

    /// Set the channel-specific model.
    pub fn with_model(self, model: Option<String>) -> (channel: Self)
        ensures
            channel@ == (ChannelModel { model: opt_string(model), ..self@ }),
    {
        let mut channel = self;
        channel.model = model;
        channel
    }

    /// Get the channel-specific model override, if configured.
    pub fn model(&self) -> (model: Option<&str>)
        ensures
            opt_str(model) == self@.model,
    {
        borrowed(&self.model)
    }

    /// Set the proxy through which requests go.
    pub fn with_proxy_url(self, proxy_url: Option<String>) -> (channel: Self)
        ensures
            channel@ == (ChannelModel { proxy_url: opt_string(proxy_url), ..self@ }),
    {
        let mut channel = self;
        channel.proxy_url = proxy_url;
        channel
    }

    /// Get the proxy through which requests go, if configured.
    pub fn proxy_url(&self) -> (proxy_url: Option<&str>)
        ensures
            opt_str(proxy_url) == self@.proxy_url,
    {
        borrowed(&self.proxy_url)
    }

    /// Get the webhook secret for signature verification.
    pub fn webhook_secret(&self) -> (secret: &str)
        ensures
            secret@ == self@.webhook_secret,
    {
        self.webhook_secret.as_str()
    }

    /// Get the API key.
    pub fn api_key(&self) -> (key: &str)
        ensures
            key@ == self@.api_key,
    {
        self.api_key.as_str()
    }

    /// Set the outbound session tracker.
    pub fn with_outbound_tracker(self, tracker: OutboundSessionTracker) -> (channel: Self)
        ensures
            channel@ == (ChannelModel { sessions: tracker@, ..self@ }),
    {
        let mut channel = self;
        channel.active_outbound = tracker;
        channel
    }

    /// Get a reference to the outbound session tracker.
    pub fn outbound_tracker(&self) -> (tracker: &OutboundSessionTracker)
        ensures
            tracker@ == self@.sessions,
    {
        &self.active_outbound
    }

    /// Check if a phone number is in the configured allowlist (E.164 format: +1234567890).
    pub fn is_number_allowed(&self, phone: &str) -> (allowed: bool)
        ensures
            allowed == number_allowed(self@.allowed_numbers, phone@),
    {
        is_allowed(&self.allowed_numbers, phone)
    }

    /// Check if a phone number is trusted (i.e. in the allowlist with Trusted trust level).
    /// Returns false for scoped numbers and numbers not in the list.
    pub fn is_trusted_number(&self, phone: &str) -> (trusted: bool)
        ensures
            trusted == (number_trust(self@.allowed_numbers, phone@) == Some(
                PhoneTrustLevel::Trusted,
            )),
    {
        is_trusted(&self.allowed_numbers, phone)
    }

    /// Get the trust level for a phone number, if it's in the allowlist.
    pub fn get_trust_level(&self, phone: &str) -> (level: Option<PhoneTrustLevel>)
        ensures
            level == number_trust(self@.allowed_numbers, phone@),
    {
        trust_of(&self.allowed_numbers, phone)
    }

    /// Get the configured purpose for a phone number, if any.
    pub fn get_number_purpose(&self, phone: &str) -> (purpose: Option<&str>)
        ensures
            opt_str(purpose) == number_purpose(self@.allowed_numbers, phone@),
    {
        purpose_of(&self.allowed_numbers, phone)
    }

    /// Check if a phone number has an outbound session that is active at the time `now`.
    pub fn has_active_outbound_at(&self, phone: &str, now: u64) -> (active: bool)
        ensures
            active == active_at(self@.sessions, phone@, now),
    {
        self.active_outbound.is_active_at(phone, now)
    }

    /// Check if a phone number has an active (non-expired) outbound session.
    pub fn has_active_outbound(&self, phone: &str) -> (active: bool)
        ensures
            exists|time: SystemTime|
                active == active_at(self@.sessions, phone@, #[trigger] epoch_seconds(time)),
    {
        let now = unix_seconds();
        self.has_active_outbound_at(phone, now)
    }

    /// Get the purpose from an outbound session that is active at the time `now`.
    pub fn get_outbound_purpose_at(&self, phone: &str, now: u64) -> (purpose: Option<String>)
        ensures
            opt_string(purpose) == active_purpose(self@.sessions, phone@, now),
    {
        self.active_outbound.purpose_at(phone, now)
    }

    /// Get the purpose from an active outbound session, if one exists.
    pub fn get_outbound_purpose(&self, phone: &str) -> (purpose: Option<String>)
        ensures
            exists|time: SystemTime|
                opt_string(purpose) == active_purpose(
                    self@.sessions,
                    phone@,
                    #[trigger] epoch_seconds(time),
                ),
    {
        let now = unix_seconds();
        self.get_outbound_purpose_at(phone, now)
    }

    /// Register an outbound session for a phone number that begins at the time `now`.
    pub fn register_outbound_at(
        &mut self,
        phone: &str,
        call_id: &str,
        purpose: Option<&str>,
        is_voice: bool,
        now: u64,
    )
        ensures
            final(self)@ == (ChannelModel {
                sessions: old(self)@.sessions.insert(
                    phone@,
                    new_session(call_id@, opt_str(purpose), is_voice, now),
                ),
                ..old(self)@
            }),
    {
        self.active_outbound.register_at(phone, call_id, purpose, is_voice, now);
    }

    /// Register an active outbound session for a phone number.
    pub fn register_outbound(
        &mut self,
        phone: &str,
        call_id: &str,
        purpose: Option<&str>,
        is_voice: bool,
    )
        ensures
            exists|time: SystemTime|
                final(self)@ == (ChannelModel {
                    sessions: old(self)@.sessions.insert(
                        phone@,
                        new_session(
                            call_id@,
                            opt_str(purpose),
                            is_voice,
                            #[trigger] epoch_seconds(time),
                        ),
                    ),
                    ..old(self)@
                }),
    {
        let now = unix_seconds();
        self.register_outbound_at(phone, call_id, purpose, is_voice, now);
    }

    /// Register an outbound contact that the tool made, from the time `now`.
    pub fn register(&mut self, contact: &Registration, now: u64)
        ensures
            final(self)@ == old(self)@.with_contact(contact@, now),
            final(self)@ == (ChannelModel {
                sessions: old(self)@.sessions.insert(
                    contact.phone@,
                    new_session(
                        contact.call_id@,
                        opt_string(contact.purpose),
                        contact.is_voice,
                        now,
                    ),
                ),
                ..old(self)@
            }),
    {
        self.register_outbound_at(
            contact.phone.as_str(),
            contact.call_id.as_str(),
            borrowed(&contact.purpose),
            contact.is_voice,
            now,
        );
    }

    /// Clear an active outbound session for a phone number.
    pub fn clear_outbound(&mut self, phone: &str)
        ensures
            final(self)@ == (ChannelModel {
                sessions: old(self)@.sessions.remove(phone@),
                ..old(self)@
            }),
    {
        self.active_outbound.clear(phone);
    }

    /// Check whether an inbound webhook from this number should be accepted.
    pub fn should_accept_inbound(&self, phone: &str) -> (accept: bool)
        ensures
            accept == number_allowed(self@.allowed_numbers, phone@),
    {
        self.is_number_allowed(phone)
    }

    /// The request that syncs voice and begin_message to the AgentPhone agent,
    /// if there is anything to sync.
    pub fn sync_agent_config(&self) -> (request: Option<HttpRequest>)
        ensures
            match request {
                Some(r) => self@.sync_request() == Some(r@),
                None => self@.sync_request() is None,
            },
    {
        let agent_id = match &self.agent_id {
            Some(agent_id) => agent_id,
            None => {
                return None;
            },
        };
        if self.voice.is_none() && self.begin_message.is_none() {
            return None;
        }
        let mut body = JsonObject::new();
        body.set_text("voiceMode", "webhook");
        body.set_some_text("voice", borrowed(&self.voice));
        body.set_some_text("beginMessage", borrowed(&self.begin_message));
        let url = cat3(API_BASE, "/agents/", agent_id.as_str());
        let request = HttpRequest::new(Method::Patch, url, self.api_key.as_str(), None).with_body(
            body.into_json(),
        );
        Some(request)
    }

    /// What the reply to the sync means: any reply ends it well, whatever its
    /// status, and only a request that could not be sent is an error.
    pub fn sync_finished(&self, reply: &Result<HttpReply, String>) -> (result: Result<(), String>)
        ensures
            result is Err <==> *reply is Err,
            result matches Err(e) ==> reply->Err_0@ == e@,
    {
        match reply {
            Ok(_) => Ok(()),
            Err(error) => Err(error.clone()),
        }
    }

    /// Verify a webhook signature at the time `now`. With a secret, a signature is
    /// accepted only at its full length.
    pub fn verify_signature_at(
        &self,
        body: &[u8],
        signature: Option<&str>,
        timestamp: Option<&str>,
        now: u64,
    ) -> (accepted: bool)
        ensures
            accepted == signature_accepted(
                self@.webhook_secret,
                body@,
                opt_str(signature),
                opt_str(timestamp),
                now,
            ),
            accepted && self@.webhook_secret.len() > 0 ==> signature is Some && signature->0@.len()
                == SIGNATURE_LEN,
    {
        proof {
            reveal_strlit("sha256=");
        }
        if self.webhook_secret.as_str().is_empty() {
            return true;
        }
        let header = match signature {
            Some(header) => header,
            None => {
                return false;
            },
        };
        let hex_sig = match strip_prefix(header, "sha256=") {
            Some(hex_sig) => hex_sig,
            None => {
                return false;
            },
        };
        if let Some(text) = timestamp {
            if let Some(ts) = parse_i64(text) {
                if !within(cast_signed(now), ts, MAX_TIMESTAMP_DRIFT_SECS) {
                    return false;
                }
            }
        }
        let expected = match decode_hex(hex_sig) {
            Some(expected) => expected,
            None => {
                return false;
            },
        };
        let mut payload: Vec<u8> = Vec::new();
        if let Some(ts) = timestamp {
            append_bytes(&mut payload, ts.as_bytes());
            append_bytes(&mut payload, ".".as_bytes());
        }
        append_bytes(&mut payload, body);
        assert(payload@ =~= signed_payload(body@, opt_str(timestamp)));
        hmac_matches(
            self.webhook_secret.as_str().as_bytes(),
            payload.as_slice(),
            expected.as_slice(),
        )
    }

    /// Verify webhook signature using HMAC-SHA256.
    ///
    /// AgentPhone signs webhooks with `X-Webhook-Signature: sha256=<hex>` using
    /// `{timestamp}.{body}` as the signed payload.
    pub fn verify_signature(
        &self,
        body: &[u8],
        signature: Option<&str>,
        timestamp: Option<&str>,
    ) -> (accepted: bool)
        ensures
            exists|time: SystemTime|
                accepted == signature_accepted(
                    self@.webhook_secret,
                    body@,
                    opt_str(signature),
                    opt_str(timestamp),
                    #[trigger] epoch_seconds(time),
                ),
            accepted && self@.webhook_secret.len() > 0 ==> signature is Some && signature->0@.len()
                == SIGNATURE_LEN,
    {
        let now = unix_seconds();
        self.verify_signature_at(body, signature, timestamp, now)
    }

    /// The data of an event that the agent is to see.
    fn accept_event<'a>(&self, payload: &'a Json) -> (data: Option<&'a Json>)
        ensures
            match data {
                Some(d) => incoming_data(self@.allowed_numbers, payload@) == Some(d@),
                None => incoming_data(self@.allowed_numbers, payload@) is None,
            },
    {
        let event = or_text(payload.str_at("event"), "");
        if !same(event, "agent.message") {
            return None;
        }
        let channel = or_text(payload.str_at("channel"), "");
        let data = match payload.get("data") {
            Some(data) => data,
            None => {
                return None;
            },
        };
        let from = or_text(data.str_at("from"), "");
        if from.is_empty() {
            return None;
        }
        let normalized_from = to_e164(from);
        if !self.should_accept_inbound(normalized_from.as_str()) {
            return None;
        }
        if says_something(channel, data) {
            Some(data)
        } else {
            None
        }
    }

    /// Whether the messages of a payload can be made: false where the time of
    /// an entry of its history would be cut inside a character.
    pub fn is_readable(&self, payload: &Json) -> (possible: bool)
        ensures
            possible == readable(self@.allowed_numbers, payload@),
    {
        match self.accept_event(payload) {
            Some(_) => is_history_cuttable(payload),
            None => true,
        }
    }

    /// Parse an incoming webhook payload, read at the time `now`; a message gets
    /// the identifier `id`.
    pub fn parse_webhook_payload_at(&self, payload: &Json, now: u64, id: String) -> (messages: Vec<
        ChannelMessage,
    >)
        requires
            readable(self@.allowed_numbers, payload@),
        ensures
            message_models(messages@) == webhook_messages(
                self@.allowed_numbers,
                self@.agent_phone_number,
                payload@,
                now,
                id@,
            ),
    {
        let mut messages: Vec<ChannelMessage> = Vec::new();
        assert(message_models(messages@) =~= Seq::empty());
        let data = match self.accept_event(payload) {
            Some(data) => data,
            None => {
                return messages;
            },
        };
        let channel = or_text(payload.str_at("channel"), "");
        let from = or_text(data.str_at("from"), "");
        let to = or_text(data.str_at("to"), "");
        let counterparty = resolve_counterparty(borrowed(&self.agent_phone_number), from, to);
        let raw = match read_content(channel, data) {
            Some(raw) => raw,
            None => {
                return messages;
            },
        };
        let content = enrich(payload, channel, counterparty.as_str(), raw);
        let timestamp: u64 = match read_time(payload) {
            Some(seconds) => seconds,
            None => now,
        };
        let message = ChannelMessage {
            id,
            reply_target: counterparty.clone(),
            sender: counterparty,
            content,
            channel: cat2("agentphone_", channel),
            timestamp,
            thread_ts: read_thread(data),
            interruption_scope_id: None,
            attachments: Vec::new(),
        };
        proof {
            assert(event_time(payload@, now) == timestamp);
            assert(message.attachments@ =~= Seq::empty());
        }
        messages.push(message);
        assert(message_models(messages@) =~= seq![message@]);
        messages
    }

    /// Parse an incoming webhook payload from AgentPhone.
    ///
    /// Handles both `channel: "sms"` and `channel: "voice"` events.
    /// Returns an empty vec for unknown events or unauthorized callers.
    ///
    /// The message content is enriched with:
    /// - `recentHistory`: chronological conversation log prepended to the message
    /// - `conversationState`: custom metadata prefix
    /// - Channel is tagged as `agentphone_sms` or `agentphone_voice` for session scoping
    pub fn parse_webhook_payload(&self, payload: &Json) -> (messages: Vec<ChannelMessage>)
        requires
            readable(self@.allowed_numbers, payload@),
        ensures
            exists|time: SystemTime, id: Seq<char>| #[trigger]
                uuid_v4_text(id) && message_models(messages@) == webhook_messages(
                    self@.allowed_numbers,
                    self@.agent_phone_number,
                    payload@,
                    #[trigger] epoch_seconds(time),
                    id,
                ),
    {
        let now = unix_seconds();
        let id = new_message_id();
        self.parse_webhook_payload_at(payload, now, id)
    }

    /// The name of the channel.
    pub fn name(&self) -> (name: &str)
        ensures
            name@ == "agentphone"@,
    {
        "agentphone"
    }

    /// The first step of sending a message at the time `now`: the request that
    /// lists the conversations of the agent.
    pub fn send_start_at(&self, message: &SendMessage, now: u64) -> (request: Result<
        HttpRequest,
        String,
    >)
        ensures
            match request {
                Ok(r) => self@.send_start(message.recipient@, now) == Ok::<_, Seq<char>>(r@),
                Err(e) => self@.send_start(message.recipient@, now) == Err::<RequestModel, _>(e@),
            },
    {
        let agent_id = match &self.agent_id {
            Some(agent_id) => agent_id,
            None => {
                return Err("AgentPhone: agent_id required to send messages".to_string());
            },
        };
        let recipient = message.recipient.as_str();
        if !self.is_number_allowed(recipient) && !self.has_active_outbound_at(recipient, now) {
            return Err(cat3("AgentPhone: recipient ", recipient, " is not in allowed_numbers"));
        }
        Ok(make_list_request(agent_id.as_str(), self.api_key.as_str(), None))
    }

    /// The first step of sending a message: the request that lists the
    /// conversations of the agent.
    pub fn send_start(&self, message: &SendMessage) -> (request: Result<HttpRequest, String>)
        ensures
            exists|time: SystemTime|
                self@.send_start(message.recipient@, #[trigger] epoch_seconds(time)) == match request {
                    Ok(r) => Ok::<_, Seq<char>>(r@),
                    Err(e) => Err::<RequestModel, _>(e@),
                },
    {
        let now = unix_seconds();
        self.send_start_at(message, now)
    }

    /// The second step of sending a message, given the reply to the first and
    /// the value that its body stands for.
    pub fn send_listed_value(
        &self,
        message: &SendMessage,
        reply: &Result<HttpReply, String>,
        listing: Option<Json>,
    ) -> (step: SendStep)
        ensures
            step@ == send_step(
                self@.api_key,
                message.recipient@,
                message.content@,
                reply_model(*reply),
                match listing {
                    Some(value) => Some(value@),
                    None => None,
                },
            ),
    {
        let reply = match reply {
            Ok(reply) => reply,
            Err(error) => {
                return SendStep::Failed(error.clone());
            },
        };
        if !reply.is_success() {
            return SendStep::Failed(
                cat4(
                    "AgentPhone: failed to list conversations: ",
                    reply.status.as_str(),
                    " — ",
                    reply.body.as_str(),
                ),
            );
        }
        match listing {
            None => SendStep::Failed("error decoding response body".to_string()),
            Some(listing) => match find_conversation(&listing, message.recipient.as_str()) {
                None => SendStep::NoConversation,
                Some(id) => SendStep::Send(
                    make_reply_request(
                        id.as_str(),
                        message.content.as_str(),
                        self.api_key.as_str(),
                        None,
                    ),
                ),
            },
        }
    }

    /// The second step of sending a message: looks for a conversation with the
    /// recipient in the reply to the first.
    pub fn send_listed(&self, message: &SendMessage, reply: Result<HttpReply, String>) -> (step:
        SendStep)
        ensures
            step@ == send_step(
                self@.api_key,
                message.recipient@,
                message.content@,
                reply_model(reply),
                reply_json(reply_model(reply)),
            ),
    {
        let listing = match &reply {
            Ok(reply) => parse_json(reply.body.as_str()).ok(),
            Err(_) => None,
        };
        self.send_listed_value(message, &reply, listing)
    }

    /// The last step of sending a message: what its reply means.
    pub fn send_finished(&self, reply: Result<HttpReply, String>) -> (result: Result<(), String>)
        ensures
            unit_result(result) == send_result(reply_model(reply)),
    {
        match reply {
            Err(error) => Err(error),
            Ok(reply) => if reply.is_success() {
                Ok(())
            } else {
                Err(cat2("AgentPhone API error: ", reply.status.as_str()))
            },
        }
    }

    /// The request that asks whether the API answers.
    pub fn health_request(&self) -> (request: HttpRequest)
        ensures
            request@ == self@.health_request(),
    {
        let url = cat2(API_BASE, "/agents");
        let request = HttpRequest::new(Method::Get, url, self.api_key.as_str(), None).with_query(
            "limit",
            "1",
        );
        assert(request@.query =~= seq![("limit"@, "1"@)]);
        request
    }

    /// Whether the API answered well.
    pub fn health_check(&self, reply: &Result<HttpReply, String>) -> (healthy: bool)
        ensures
            healthy == match reply_model(*reply) {
                Ok(r) => r.success(),
                Err(_) => false,
            },
    {
        match reply {
            Ok(reply) => reply.is_success(),
            Err(_) => false,
        }
    }
}

/// Without a secret every webhook is accepted.
pub proof fn law_no_secret_accepts_all(
    body: Seq<u8>,
    signature: Option<Seq<char>>,
    timestamp: Option<Seq<char>>,
    now: u64,
)
    ensures
        signature_accepted(Seq::empty(), body, signature, timestamp, now),
{
}

/// With a secret, a webhook without a signature is rejected.
pub proof fn law_missing_signature_rejected(
    secret: Seq<char>,
    body: Seq<u8>,
    timestamp: Option<Seq<char>>,
    now: u64,
)
    requires
        secret.len() > 0,
    ensures
        !signature_accepted(secret, body, None, timestamp, now),
{
}

/// A webhook that carries its signature in lower-case hexadecimal is accepted
/// as long as its time stamp is fresh, and rejected when it is not.
pub proof fn law_signed_webhook_accepted_while_fresh(
    secret: Seq<char>,
    body: Seq<u8>,
    timestamp: Option<Seq<char>>,
    now: u64,
)
    requires
        secret.len() > 0,
    ensures
        signature_accepted(
            secret,
            body,
            Some("sha256="@ + hex_encoded(webhook_tag(secret, body, timestamp))),
            timestamp,
            now,
        ) <==> fresh(timestamp, now),
{
    let prefix = "sha256="@;
    let hex = hex_encoded(webhook_tag(secret, body, timestamp));
    let header = prefix + hex;
    assert(header.take(prefix.len() as int) =~= prefix);
    assert(header.skip(prefix.len() as int) =~= hex);
    law_hex_round_trip(webhook_tag(secret, body, timestamp));
}

/// A time stamp in decimal is fresh exactly when it is at most 300 seconds away
/// from the clock.
pub proof fn law_decimal_timestamp_is_fresh(ts: i64, now: u64)
    requires
        now <= i64::MAX,
    ensures
        fresh(Some(signed_decimal(ts as int)), now) <==> -300 <= now - ts <= 300,
{
    law_decimal_reads_back(ts as int);
}

/// With a secret, a webhook is only accepted with the tag of its own time stamp
/// and body: a signature that is accepted for another webhook is the tag of
/// both.
pub proof fn law_accepted_signature_is_the_tag(
    secret: Seq<char>,
    body: Seq<u8>,
    signature: Seq<char>,
    timestamp: Option<Seq<char>>,
    now: u64,
    other_body: Seq<u8>,
    other_timestamp: Option<Seq<char>>,
    other_now: u64,
)
    requires
        secret.len() > 0,
        signature_accepted(secret, body, Some(signature), timestamp, now),
        signature_accepted(secret, other_body, Some(signature), other_timestamp, other_now),
    ensures
        webhook_tag(secret, body, timestamp) == webhook_tag(secret, other_body, other_timestamp),
{
}

/// An event that is no message gives the agent nothing, nor does one whose
/// sender the list does not allow.
pub proof fn law_unauthorized_events_are_dropped(
    allowed: Seq<PhoneNumberEntry>,
    agent_number: Option<Seq<char>>,
    payload: JsonModel,
    now: u64,
    id: Seq<char>,
)
    requires
        ({
            ||| text_at(payload, "event"@) != Some("agent.message"@)
            ||| field(payload, "data"@) is None
            ||| !number_allowed(allowed, e164(event_from(field(payload, "data"@)->0)))
        }),
    ensures
        webhook_messages(allowed, agent_number, payload, now, id).len() == 0,
{
    reveal_strlit("agent.message");
    reveal_strlit("");
    assert("agent.message"@.len() != ""@.len());
}

/// An event gives the agent at most one message. It is tagged by the kind of
/// its channel, is to be answered to whom it comes from, and ends with what was
/// said.
pub proof fn law_message_is_tagged_and_ends_with_what_was_said(
    allowed: Seq<PhoneNumberEntry>,
    agent_number: Option<Seq<char>>,
    payload: JsonModel,
    now: u64,
    id: Seq<char>,
)
    ensures
        ({
            let messages = webhook_messages(allowed, agent_number, payload, now, id);
            &&& messages.len() <= 1
            &&& messages.len() == 1 ==> {
                let data = field(payload, "data"@)->0;
                let raw = raw_content(event_channel(payload), data)->0;
                let content = messages[0].content;
                &&& raw_content(event_channel(payload), data) is Some
                &&& messages[0].channel == "agentphone_"@ + "sms"@ || messages[0].channel
                    == "agentphone_"@ + "voice"@
                &&& messages[0].sender == messages[0].reply_target
                &&& messages[0].id == id
                &&& content.len() >= raw.len()
                &&& content.skip(content.len() - raw.len()) == raw
            }
        }),
{
    if let Some(data) = incoming_data(allowed, payload) {
        let channel = event_channel(payload);
        let raw = raw_content(channel, data)->0;
        let counterparty = counterparty_of(agent_number, event_from(data), event_to(data));
        let content = enriched(payload, channel, counterparty, raw);
        let history = match history_text(payload, channel, counterparty) {
            Some(text) => seq![text],
            None => Seq::empty(),
        };
        let state = match state_text(payload) {
            Some(text) => seq![text],
            None => Seq::empty(),
        };
        let parts = history + state + seq![raw];
        assert(parts.last() == raw);
        if parts.len() == 1 {
            assert(content =~= raw);
        }
        assert(content.skip(content.len() - raw.len()) =~= raw);
    }
}

/// Which events the agent sees does not depend on the outbound sessions.
pub proof fn law_sessions_do_not_admit_inbound(
    channel: ChannelModel,
    sessions: Map<Seq<char>, SessionModel>,
    phone: Seq<char>,
    payload: JsonModel,
)
    ensures
        ({
            let other = ChannelModel { sessions, ..channel };
            &&& number_allowed(other.allowed_numbers, phone) == number_allowed(
                channel.allowed_numbers,
                phone,
            )
            &&& incoming_data(other.allowed_numbers, payload) == incoming_data(
                channel.allowed_numbers,
                payload,
            )
        }),
{
}

/// A message is only sent for an agent, and to a number that is allowed or has
/// an active session; then it is.
pub proof fn law_send_needs_agent_and_permission(
    channel: ChannelModel,
    recipient: Seq<char>,
    now: u64,
)
    ensures
        channel.send_start(recipient, now) is Ok <==> {
            &&& channel.agent_id is Some
            &&& number_allowed(channel.allowed_numbers, recipient) || active_at(
                channel.sessions,
                recipient,
                now,
            )
        },
{
}

/// Whoever was just contacted may be written to until the session ends.
pub proof fn law_registered_number_may_be_written_to(
    channel: ChannelModel,
    phone: Seq<char>,
    call_id: Seq<char>,
    purpose: Option<Seq<char>>,
    is_voice: bool,
    started: u64,
    now: u64,
)
    requires
        now <= started + session_ttl(is_voice),
    ensures
        ({
            let session = new_session(call_id, purpose, is_voice, started);
            let after = ChannelModel { sessions: channel.sessions.insert(phone, session), ..channel };
            after.may_send_to(phone, now)
        }),
{
}

/// A conversation is found by the number of its participant with or without the
/// plus sign, and the first one in the list is taken.
pub proof fn law_first_conversation_is_found(items: Seq<JsonModel>, number: Seq<char>, n: int)
    requires
        0 <= n < items.len(),
        conversation_with(items[n], number) is Some,
        forall|i: int| 0 <= i < n ==> conversation_with(#[trigger] items[i], number) is None,
    ensures
        first_conversation(items, number) == conversation_with(items[n], number),
    decreases n,
{
    if n > 0 {
        assert(conversation_with(items[0], number) is None);
        assert forall|i: int| 0 <= i < n - 1 implies conversation_with(
            #[trigger] items.drop_first()[i],
            number,
        ) is None by {
            assert(items.drop_first()[i] == items[i + 1]);
        }
        law_first_conversation_is_found(items.drop_first(), number, n - 1);
    }
}

/// A message event whose sender is allowed and that says something gives the
/// agent one message, and any other event gives it none.
pub proof fn law_accepted_events_give_one_message(
    allowed: Seq<PhoneNumberEntry>,
    agent_number: Option<Seq<char>>,
    payload: JsonModel,
    now: u64,
    id: Seq<char>,
)
    ensures
        webhook_messages(allowed, agent_number, payload, now, id).len() == 1 <==> {
            let data = field(payload, "data"@)->0;
            &&& text_at(payload, "event"@) == Some("agent.message"@)
            &&& field(payload, "data"@) is Some
            &&& event_from(data).len() > 0
            &&& number_allowed(allowed, e164(event_from(data)))
            &&& has_content(event_channel(payload), data)
        },
{
    reveal_strlit("agent.message");
    reveal_strlit("");
    assert("agent.message"@.len() != ""@.len());
}

} // verus!
