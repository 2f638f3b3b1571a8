//! The AgentPhone tool: SMS, calls, agents, numbers, conversations and usage.
use vstd::prelude::*;
use std::time::SystemTime;
use crate::channels::agentphone::{
    find_conversation, found_conversation, make_reply_request, reply_body, reply_request,
    ChannelModel, API_BASE,
};
use crate::channels::session::{
    active_at, active_purpose, new_session, session_ttl, OutboundSessionTracker, SessionModel,
};
use crate::clock::{epoch_seconds, unix_seconds};
use crate::config::{is_allowed, number_allowed, number_purpose, purpose_of, PhoneNumberEntry};
use crate::http::{
    body_request, json_result, plain_request, reply_model, HttpReply, HttpRequest, Method,
    ReplyModel, RequestModel,
};
use crate::json::{field, number_or, str_texts, text_at, with_text, Json, JsonModel, JsonObject};
use crate::json_text::{json_parsed, parse_json};
use crate::text::{
    borrowed, can_cut, can_truncate, cat2, cat3, cat4, cat5, cut, cut_text, decimal, either,
    first_of, join, joined, opt_str, opt_string, or_text, owned, same, text_or, texts, u64_text,
};
use crate::tools::result::{
    error_model, is_listed, print_result, printed_result, verdict_model, Admission, AdmissionModel,
    ResultModel, ToolOperation, ToolResult,
};
use crate::tools::schema::{
    choice_model, choice_property, parameter_schema, range_model, range_property, schema_model,
    string_model, string_property, typed_model, typed_property,
};

verus! {

/// How long a request may take, in seconds.
pub const REQUEST_TIMEOUT_SECS: u64 = 30;

/// How much of the body of an error is kept, in bytes.
pub const MAX_ERROR_BODY_CHARS: usize = 500;

/// Tool for interacting with the AgentPhone API: send SMS, place calls, manage
/// agents/numbers, query conversations and usage.
///
/// Each action is gated by `allowed_actions` and the appropriate security
/// operation (Read for queries, Act for mutations). Outbound SMS and calls
/// are additionally restricted to `allowed_numbers`.
pub struct AgentPhoneTool {
    api_key: String,
    default_agent_id: Option<String>,
    default_from_number_id: Option<String>,
    allowed_numbers: Vec<PhoneNumberEntry>,
    allowed_actions: Vec<String>,
    default_voice: Option<String>,
    default_begin_message: Option<String>,
    outbound_tracker: Option<OutboundSessionTracker>,
}

/// How the tool is set up, and the outbound sessions that it tracks.
pub struct PhoneToolModel {
    pub api_key: Seq<char>,
    pub default_agent_id: Option<Seq<char>>,
    pub default_from_number_id: Option<Seq<char>>,
    pub allowed_numbers: Seq<PhoneNumberEntry>,
    pub allowed_actions: Seq<Seq<char>>,
    pub default_voice: Option<Seq<char>>,
    pub default_begin_message: Option<Seq<char>>,
    pub sessions: Option<Map<Seq<char>, SessionModel>>,
}

impl View for AgentPhoneTool {
    type V = PhoneToolModel;

    closed spec fn view(&self) -> PhoneToolModel {
        PhoneToolModel {
            api_key: self.api_key@,
            default_agent_id: opt_string(self.default_agent_id),
            default_from_number_id: opt_string(self.default_from_number_id),
            allowed_numbers: self.allowed_numbers@,
            allowed_actions: texts(self.allowed_actions@),
            default_voice: opt_string(self.default_voice),
            default_begin_message: opt_string(self.default_begin_message),
            sessions: match self.outbound_tracker {
                Some(tracker) => Some(tracker@),
                None => None,
            },
        }
    }
}

/// What the reply to a request is for.
#[derive(Debug)]
pub enum Stage {
    /// The reply is printed.
    Plain,
    /// The reply says that a call was placed.
    Call { to: String, greeting: String, prompt: String, purpose: Option<String> },
    /// The reply lists the conversations among which one is looked for.
    SmsList { to: String, message: String, purpose: Option<String> },
    /// The reply says that an SMS was sent.
    SmsReply { to: String, message: String, purpose: Option<String>, conversation_id: String },
}

/// What the reply to a request is for.
pub enum StageModel {
    Plain,
    Call { to: Seq<char>, greeting: Seq<char>, prompt: Seq<char>, purpose: Option<Seq<char>> },
    SmsList { to: Seq<char>, message: Seq<char>, purpose: Option<Seq<char>> },
    SmsReply {
        to: Seq<char>,
        message: Seq<char>,
        purpose: Option<Seq<char>>,
        conversation_id: Seq<char>,
    },
}

impl View for Stage {
    type V = StageModel;

    open spec fn view(&self) -> StageModel {
        match *self {
            Stage::Plain => StageModel::Plain,
            Stage::Call { to, greeting, prompt, purpose } => StageModel::Call {
                to: to@,
                greeting: greeting@,
                prompt: prompt@,
                purpose: opt_string(purpose),
            },
            Stage::SmsList { to, message, purpose } => StageModel::SmsList {
                to: to@,
                message: message@,
                purpose: opt_string(purpose),
            },
            Stage::SmsReply { to, message, purpose, conversation_id } => StageModel::SmsReply {
                to: to@,
                message: message@,
                purpose: opt_string(purpose),
                conversation_id: conversation_id@,
            },
        }
    }
}

/// An outbound contact that is to be registered.
#[derive(Debug)]
pub struct Registration {
    pub phone: String,
    pub call_id: String,
    pub purpose: Option<String>,
    pub is_voice: bool,
}

/// An outbound contact that is to be registered.
pub struct RegistrationModel {
    pub phone: Seq<char>,
    pub call_id: Seq<char>,
    pub purpose: Option<Seq<char>>,
    pub is_voice: bool,
}

impl View for Registration {
    type V = RegistrationModel;

    open spec fn view(&self) -> RegistrationModel {
        RegistrationModel {
            phone: self.phone@,
            call_id: self.call_id@,
            purpose: opt_string(self.purpose),
            is_voice: self.is_voice,
        }
    }
}

/// A note that is to be kept for the session with the other side.
#[derive(Debug)]
pub struct MemoryNote {
    pub key: String,
    pub content: String,
    pub session_id: String,
}

/// A note that is to be kept for the session with the other side.
pub struct MemoryModel {
    pub key: Seq<char>,
    pub content: Seq<char>,
    pub session_id: Seq<char>,
}

/// What a call of the tool came to.
#[derive(Debug)]
pub struct Outcome {
    pub result: ToolResult,
    pub registration: Option<Registration>,
    pub memory: Option<MemoryNote>,
}

/// What a call of the tool came to.
pub struct OutcomeModel {
    pub result: ResultModel,
    pub registration: Option<RegistrationModel>,
    pub memory: Option<MemoryModel>,
}

impl View for Outcome {
    type V = OutcomeModel;

    open spec fn view(&self) -> OutcomeModel {
        OutcomeModel {
            result: self.result@,
            registration: match self.registration {
                Some(contact) => Some(contact@),
                None => None,
            },
            memory: match self.memory {
                Some(note) => Some(
                    MemoryModel {
                        key: note.key@,
                        content: note.content@,
                        session_id: note.session_id@,
                    },
                ),
                None => None,
            },
        }
    }
}

/// What to do next.
#[derive(Debug)]
pub enum PhoneStep {
    /// Nothing: this is what the call came to.
    Done(Outcome),
    /// Send a request, whose reply is for the stage.
    Send(Stage, HttpRequest),
}

/// What to do next.
pub enum PhoneStepModel {
    Done(OutcomeModel),
    Send(StageModel, RequestModel),
}

impl View for PhoneStep {
    type V = PhoneStepModel;

    open spec fn view(&self) -> PhoneStepModel {
        match *self {
            PhoneStep::Done(outcome) => PhoneStepModel::Done(outcome@),
            PhoneStep::Send(stage, request) => PhoneStepModel::Send(stage@, request@),
        }
    }
}

/// A call that ends with a result and nothing else.
pub open spec fn ended(result: ResultModel) -> PhoneStepModel {
    PhoneStepModel::Done(OutcomeModel { result, registration: None, memory: None })
}

/// A call that ends with an error.
pub open spec fn failed(message: Seq<char>) -> PhoneStepModel {
    ended(error_model(message))
}

/// A call that goes on with a request whose reply is printed.
pub open spec fn asked(request: RequestModel) -> PhoneStepModel {
    PhoneStepModel::Send(StageModel::Plain, request)
}

fn end(result: ToolResult) -> (step: PhoneStep)
    ensures
        step@ == ended(result@),
{
    PhoneStep::Done(Outcome { result, registration: None, memory: None })
}

fn fail(message: String) -> (step: PhoneStep)
    ensures
        step@ == failed(message@),
{
    end(ToolResult::error(message))
}

fn fail_with(message: &str) -> (step: PhoneStep)
    ensures
        step@ == failed(message@),
{
    end(ToolResult::refusal(message))
}

fn ask(request: HttpRequest) -> (step: PhoneStep)
    ensures
        step@ == asked(request@),
{
    PhoneStep::Send(Stage::Plain, request)
}

/// The answer that stands for an empty body.
pub open spec fn status_ok() -> JsonModel {
    JsonModel::Object(Map::empty().insert("status"@, JsonModel::Text("ok"@)))
}

/// What a reply answers, given what its body reads as.
pub open spec fn answer(
    reply: Result<ReplyModel, Seq<char>>,
    body: Result<JsonModel, Seq<char>>,
) -> Result<JsonModel, Seq<char>> {
    match reply {
        Err(error) => Err(error),
        Ok(reply) => if !reply.success() {
            Err(
                "AgentPhone API error "@ + reply.status + ": "@ + cut(
                    reply.body,
                    MAX_ERROR_BODY_CHARS as int,
                    "…"@,
                ),
            )
        } else if reply.body.len() == 0 {
            Ok(status_ok())
        } else {
            body
        },
    }
}

/// What the body of a reply reads as.
pub open spec fn body_read(reply: Result<ReplyModel, Seq<char>>) -> Result<JsonModel, Seq<char>> {
    match reply {
        Ok(reply) => json_parsed(reply.body),
        Err(error) => Err(error),
    }
}

/// Whether a reply can be reported: where it is an error, its body can be cut.
pub open spec fn reportable(reply: Result<ReplyModel, Seq<char>>) -> bool {
    match reply {
        Ok(reply) => reply.success() || can_cut(reply.body, MAX_ERROR_BODY_CHARS as int),
        Err(_) => true,
    }
}

/// The actions of the tool.
pub open spec fn phone_actions() -> Seq<Seq<char>> {
    seq![
        "agents.list"@,
        "agents.get"@,
        "agents.create"@,
        "agents.update"@,
        "numbers.list"@,
        "calls.list"@,
        "calls.get"@,
        "calls.create"@,
        "sms.send"@,
        "conversations.list"@,
        "conversations.get"@,
        "conversations.update"@,
        "usage.get"@,
    ]
}

/// Whether an action only reads.
pub open spec fn reads(action: Seq<char>) -> bool {
    ||| action == "agents.list"@
    ||| action == "agents.get"@
    ||| action == "numbers.list"@
    ||| action == "calls.list"@
    ||| action == "calls.get"@
    ||| action == "conversations.list"@
    ||| action == "conversations.get"@
    ||| action == "usage.get"@
}

/// Whether an action acts.
pub open spec fn acts(action: Seq<char>) -> bool {
    ||| action == "sms.send"@
    ||| action == "calls.create"@
    ||| action == "agents.create"@
    ||| action == "agents.update"@
    ||| action == "conversations.update"@
}

/// What kind of operation an action is, where there is such an action.
pub open spec fn phone_operation(action: Seq<char>) -> Option<ToolOperation> {
    if reads(action) {
        Some(ToolOperation::Read)
    } else if acts(action) {
        Some(ToolOperation::Act)
    } else {
        None
    }
}

/// What kind of operation an action is.
pub fn operation_of(action: &str) -> (operation: Option<ToolOperation>)
    ensures
        operation == phone_operation(action@),
{
    if same(action, "agents.list") || same(action, "agents.get") || same(action, "numbers.list")
        || same(action, "calls.list") || same(action, "calls.get") || same(
        action,
        "conversations.list",
    ) || same(action, "conversations.get") || same(action, "usage.get") {
        Some(ToolOperation::Read)
    } else if same(action, "sms.send") || same(action, "calls.create") || same(
        action,
        "agents.create",
    ) || same(action, "agents.update") || same(action, "conversations.update") {
        Some(ToolOperation::Act)
    } else {
        None
    }
}

impl PhoneToolModel {
    /// A request without a body.
    pub open spec fn get(self, path: Seq<char>) -> RequestModel {
        plain_request(Method::Get, API_BASE@ + path, self.api_key, Some(REQUEST_TIMEOUT_SECS))
    }

    /// A request that posts a body.
    pub open spec fn post(self, path: Seq<char>, body: JsonModel) -> RequestModel {
        body_request(Method::Post, API_BASE@ + path, self.api_key, body, Some(REQUEST_TIMEOUT_SECS))
    }

    /// A request that patches with a body.
    pub open spec fn patch(self, path: Seq<char>, body: JsonModel) -> RequestModel {
        body_request(
            Method::Patch,
            API_BASE@ + path,
            self.api_key,
            body,
            Some(REQUEST_TIMEOUT_SECS),
        )
    }

    /// The agent that a call is about.
    pub open spec fn agent(self, args: JsonModel) -> Option<Seq<char>> {
        first_of(text_at(args, "agent_id"@), self.default_agent_id)
    }

    /// Lists one kind of thing.
    pub open spec fn listing(self, path: Seq<char>, args: JsonModel) -> PhoneStepModel {
        asked(self.get(path + "?limit="@ + decimal(number_or(args, "limit"@, 20) as nat)))
    }

    /// `agents.get`
    pub open spec fn agents_get(self, args: JsonModel) -> PhoneStepModel {
        match self.agent(args) {
            Some(agent_id) => asked(self.get("/agents/"@ + agent_id)),
            None => failed("agents.get requires agent_id parameter"@),
        }
    }

    /// `agents.create`
    pub open spec fn agents_create(self, args: JsonModel) -> PhoneStepModel {
        match text_at(args, "name"@) {
            Some(name) => {
                let body = Map::empty().insert("name"@, JsonModel::Text(name));
                let body = with_text(body, "description"@, text_at(args, "description"@));
                let body = with_text(
                    body,
                    "voice"@,
                    first_of(text_at(args, "voice"@), self.default_voice),
                );
                let body = with_text(
                    body,
                    "beginMessage"@,
                    first_of(text_at(args, "begin_message"@), self.default_begin_message),
                );
                let body = with_text(body, "voiceMode"@, text_at(args, "voice_mode"@));
                asked(self.post("/agents"@, JsonModel::Object(body)))
            },
            None => failed("agents.create requires name parameter"@),
        }
    }

    /// `agents.update`
    pub open spec fn agents_update(self, args: JsonModel) -> PhoneStepModel {
        match self.agent(args) {
            Some(agent_id) => {
                let body = with_text(Map::empty(), "name"@, text_at(args, "name"@));
                let body = with_text(body, "description"@, text_at(args, "description"@));
                let body = with_text(body, "voice"@, text_at(args, "voice"@));
                let body = with_text(body, "beginMessage"@, text_at(args, "begin_message"@));
                let body = with_text(body, "voiceMode"@, text_at(args, "voice_mode"@));
                let body = with_text(body, "systemPrompt"@, text_at(args, "system_prompt"@));
                asked(self.patch("/agents/"@ + agent_id, JsonModel::Object(body)))
            },
            None => failed("agents.update requires agent_id parameter"@),
        }
    }

    /// `calls.get`
    pub open spec fn calls_get(self, args: JsonModel) -> PhoneStepModel {
        match text_at(args, "call_id"@) {
            Some(call_id) => asked(self.get("/calls/"@ + call_id)),
            None => failed("calls.get requires call_id parameter"@),
        }
    }

    /// The purpose of a contact: what the call says, or else what is configured
    /// for the number.
    pub open spec fn purpose(self, args: JsonModel, to: Seq<char>) -> Option<Seq<char>> {
        first_of(text_at(args, "purpose"@), number_purpose(self.allowed_numbers, to))
    }

    /// What a call or an SMS to a number that is not allowed is answered.
    pub open spec fn number_refused(self, to: Seq<char>) -> PhoneStepModel {
        failed(
            "Phone number "@ + to
                + " is not in the allowed_numbers list. Add it to [agentphone].allowed_numbers in config.toml."@,
        )
    }

    /// The greeting of a call.
    pub open spec fn greeting(self, args: JsonModel) -> Option<Seq<char>> {
        first_of(text_at(args, "initial_greeting"@), self.default_begin_message)
    }

    /// The body of the request that places a call.
    pub open spec fn call_body(self, args: JsonModel, to: Seq<char>, agent_id: Seq<char>) -> JsonModel {
        let body = Map::empty().insert("agentId"@, JsonModel::Text(agent_id)).insert(
            "toNumber"@,
            JsonModel::Text(to),
        );
        let body = with_text(
            body,
            "fromNumberId"@,
            first_of(text_at(args, "from_number_id"@), self.default_from_number_id),
        );
        let body = with_text(body, "voice"@, first_of(text_at(args, "voice"@), self.default_voice));
        let body = with_text(body, "initialGreeting"@, self.greeting(args));
        JsonModel::Object(with_text(body, "systemPrompt"@, text_at(args, "system_prompt"@)))
    }

    /// `calls.create`
    pub open spec fn calls_create(self, args: JsonModel) -> PhoneStepModel {
        match text_at(args, "to"@) {
            None => failed("calls.create requires 'to' parameter (E.164 phone number)"@),
            Some(to) => if !number_allowed(self.allowed_numbers, to) {
                self.number_refused(to)
            } else {
                match self.agent(args) {
                    None => failed(
                        "calls.create requires agent_id (or configure default_agent_id)"@,
                    ),
                    Some(agent_id) => PhoneStepModel::Send(
                        StageModel::Call {
                            to,
                            greeting: text_or(self.greeting(args), "default"@),
                            prompt: text_or(text_at(args, "system_prompt"@), "none"@),
                            purpose: self.purpose(args, to),
                        },
                        self.post("/calls"@, self.call_body(args, to, agent_id)),
                    ),
                }
            },
        }
    }

    /// `sms.send`
    pub open spec fn sms_send(self, args: JsonModel) -> PhoneStepModel {
        match text_at(args, "to"@) {
            None => failed("sms.send requires 'to' parameter (E.164 phone number)"@),
            Some(to) => if !number_allowed(self.allowed_numbers, to) {
                self.number_refused(to)
            } else {
                match text_at(args, "message"@) {
                    None => failed("sms.send requires 'message' parameter"@),
                    Some(message) => match self.agent(args) {
                        None => failed(
                            "sms.send requires agent_id (or configure default_agent_id)"@,
                        ),
                        Some(agent_id) => PhoneStepModel::Send(
                            StageModel::SmsList { to, message, purpose: self.purpose(args, to) },
                            self.get("/agents/"@ + agent_id + "/conversations?limit=100"@),
                        ),
                    },
                }
            },
        }
    }

    /// `conversations.get`
    pub open spec fn conversations_get(self, args: JsonModel) -> PhoneStepModel {
        match text_at(args, "conversation_id"@) {
            Some(id) => asked(
                self.get(
                    "/conversations/"@ + id + "?message_limit="@ + decimal(
                        number_or(args, "message_limit"@, 50) as nat,
                    ),
                ),
            ),
            None => failed("conversations.get requires conversation_id parameter"@),
        }
    }

    /// `conversations.update`
    pub open spec fn conversations_update(self, args: JsonModel) -> PhoneStepModel {
        match text_at(args, "conversation_id"@) {
            None => failed("conversations.update requires conversation_id parameter"@),
            Some(id) => match field(args, "metadata"@) {
                None => failed("conversations.update requires metadata parameter"@),
                Some(metadata) => asked(
                    self.patch(
                        "/conversations/"@ + id,
                        JsonModel::Object(Map::empty().insert("metadata"@, metadata)),
                    ),
                ),
            },
        }
    }

    /// What an action does first.
    pub open spec fn dispatch(self, action: Seq<char>, args: JsonModel) -> PhoneStepModel {
        if action == "agents.list"@ {
            self.listing("/agents"@, args)
        } else if action == "agents.get"@ {
            self.agents_get(args)
        } else if action == "agents.create"@ {
            self.agents_create(args)
        } else if action == "agents.update"@ {
            self.agents_update(args)
        } else if action == "numbers.list"@ {
            self.listing("/numbers"@, args)
        } else if action == "calls.list"@ {
            self.listing("/calls"@, args)
        } else if action == "calls.get"@ {
            self.calls_get(args)
        } else if action == "calls.create"@ {
            self.calls_create(args)
        } else if action == "sms.send"@ {
            self.sms_send(args)
        } else if action == "conversations.list"@ {
            self.listing("/conversations"@, args)
        } else if action == "conversations.get"@ {
            self.conversations_get(args)
        } else if action == "conversations.update"@ {
            self.conversations_update(args)
        } else {
            asked(self.get("/usage"@))
        }
    }

    /// Whether a call is refused before the policy is asked, or what kind of
    /// operation it is.
    pub open spec fn admission(self, args: JsonModel) -> AdmissionModel {
        match text_at(args, "action"@) {
            None => AdmissionModel::Refused(error_model("Missing required parameter: action"@)),
            Some(action) => match phone_operation(action) {
                None => AdmissionModel::Refused(
                    error_model(
                        "Unknown action: "@ + action
                            + ". Valid actions: agents.list, agents.get, agents.create, agents.update, numbers.list, calls.list, calls.get, calls.create, sms.send, conversations.list, conversations.get, conversations.update, usage.get"@,
                    ),
                ),
                Some(operation) => if !self.allowed_actions.contains(action) {
                    AdmissionModel::Refused(
                        error_model(
                            "Action '"@ + action
                                + "' is not enabled. Add it to [agentphone].allowed_actions in config.toml. Currently allowed: "@
                                + joined(self.allowed_actions, ", "@),
                        ),
                    )
                } else {
                    AdmissionModel::Granted(operation)
                },
            },
        }
    }

    /// What a call does first, once the policy has been asked.
    pub open spec fn execution(self, args: JsonModel, refusal: Option<Seq<char>>) -> PhoneStepModel {
        match self.admission(args) {
            AdmissionModel::Refused(result) => ended(result),
            AdmissionModel::Granted(_) => match refusal {
                Some(error) => failed(error),
                None => self.dispatch(text_at(args, "action"@)->0, args),
            },
        }
    }

    /// The note that is kept of a call.
    pub open spec fn call_note(
        to: Seq<char>,
        greeting: Seq<char>,
        prompt: Seq<char>,
        purpose: Option<Seq<char>>,
        now: u64,
    ) -> MemoryModel {
        MemoryModel {
            key: "agentphone_out_"@ + to + "_"@ + decimal(now as nat),
            content: "[outbound call placed] to: "@ + to + ", greeting: "@ + greeting
                + ", prompt: "@ + prompt + ", purpose: "@ + text_or(purpose, "none"@),
            session_id: "agentphone_voice_"@ + to,
        }
    }

    /// The note that is kept of an SMS.
    pub open spec fn sms_note(
        to: Seq<char>,
        message: Seq<char>,
        purpose: Option<Seq<char>>,
        now: u64,
    ) -> MemoryModel {
        MemoryModel {
            key: "agentphone_out_"@ + to + "_"@ + decimal(now as nat),
            content: "[outbound SMS sent] to: "@ + to + ", message: "@ + message + ", purpose: "@
                + text_or(purpose, "none"@),
            session_id: "agentphone_sms_"@ + to,
        }
    }

    /// What to do with the answer to a request.
    pub open spec fn after(
        self,
        stage: StageModel,
        answer: Result<JsonModel, Seq<char>>,
        now: u64,
    ) -> PhoneStepModel {
        match stage {
            StageModel::Plain => ended(printed_result(answer)),
            StageModel::Call { to, greeting, prompt, purpose } => match answer {
                Err(error) => failed(error),
                Ok(data) => PhoneStepModel::Done(
                    OutcomeModel {
                        result: printed_result(answer),
                        registration: Some(
                            RegistrationModel {
                                phone: to,
                                call_id: text_or(text_at(data, "id"@), "unknown"@),
                                purpose,
                                is_voice: true,
                            },
                        ),
                        memory: Some(Self::call_note(to, greeting, prompt, purpose, now)),
                    },
                ),
            },
            StageModel::SmsList { to, message, purpose } => match answer {
                Err(error) => failed("Failed to list conversations: "@ + error),
                Ok(data) => match found_conversation(data, to) {
                    Some(conversation_id) => PhoneStepModel::Send(
                        StageModel::SmsReply { to, message, purpose, conversation_id },
                        reply_request(
                            conversation_id,
                            message,
                            self.api_key,
                            Some(REQUEST_TIMEOUT_SECS),
                        ),
                    ),
                    None => failed(
                        "No existing conversation found with "@ + to
                            + ". An inbound message is required before sending SMS."@,
                    ),
                },
            },
            StageModel::SmsReply { to, message, purpose, conversation_id } => match answer {
                Err(error) => failed(error),
                Ok(data) => PhoneStepModel::Done(
                    OutcomeModel {
                        result: printed_result(answer),
                        registration: Some(
                            RegistrationModel {
                                phone: to,
                                call_id: conversation_id,
                                purpose,
                                is_voice: false,
                            },
                        ),
                        memory: Some(Self::sms_note(to, message, purpose, now)),
                    },
                ),
            },
        }
    }

    /// The tool after a step: a contact is registered where the tool tracks
    /// sessions.
    pub open spec fn registered(self, step: PhoneStepModel, now: u64) -> PhoneToolModel {
        match step {
            PhoneStepModel::Done(outcome) => match outcome.registration {
                Some(r) => self.with_session(r.phone, r.call_id, r.purpose, r.is_voice, now),
                None => self,
            },
            PhoneStepModel::Send(_, _) => self,
        }
    }

    /// The tool with one more session, where it tracks sessions.
    pub open spec fn with_session(
        self,
        phone: Seq<char>,
        call_id: Seq<char>,
        purpose: Option<Seq<char>>,
        is_voice: bool,
        now: u64,
    ) -> PhoneToolModel {
        PhoneToolModel {
            sessions: match self.sessions {
                Some(sessions) => Some(
                    sessions.insert(phone, new_session(call_id, purpose, is_voice, now)),
                ),
                None => None,
            },
            ..self
        }
    }
}

/// Whether a reply can be reported: false where the body of an error would be
/// cut inside a character.
pub fn is_reportable(reply: &Result<HttpReply, String>) -> (possible: bool)
    ensures
        possible == reportable(reply_model(*reply)),
{
    match reply {
        Ok(reply) => reply.is_success() || can_truncate(reply.body.as_str(), MAX_ERROR_BODY_CHARS),
        Err(_) => true,
    }
}

/// What a reply answers, given what its body reads as.
pub fn answer_of(reply: &Result<HttpReply, String>, body: Result<Json, String>) -> (result: Result<
    Json,
    String,
>)
    requires
        reportable(reply_model(*reply)),
    ensures
        json_result(result) == answer(reply_model(*reply), json_result(body)),
{
    let reply = match reply {
        Ok(reply) => reply,
        Err(error) => {
            return Err(error.clone());
        },
    };
    if !reply.is_success() {
        let shortened = cut_text(reply.body.as_str(), MAX_ERROR_BODY_CHARS, "…");
        return Err(
            cat4("AgentPhone API error ", reply.status.as_str(), ": ", shortened.as_str()),
        );
    }
    if reply.body.as_str().is_empty() {
        let mut object = JsonObject::new();
        object.set_text("status", "ok");
        Ok(object.into_json())
    } else {
        body
    }
}

/// What a reply answers.
pub fn handle_response(reply: Result<HttpReply, String>) -> (result: Result<Json, String>)
    requires
        reportable(reply_model(reply)),
    ensures
        json_result(result) == answer(reply_model(reply), body_read(reply_model(reply))),
{
    let body = match &reply {
        Ok(reply) => parse_json(reply.body.as_str()),
        Err(error) => Err(error.clone()),
    };
    answer_of(&reply, body)
}

impl AgentPhoneTool {
    /// Create a tool with its API key, its defaults, and the numbers and actions
    /// that it allows.
    pub fn new(
        api_key: String,
        default_agent_id: Option<String>,
        default_from_number_id: Option<String>,
        allowed_numbers: Vec<PhoneNumberEntry>,
        allowed_actions: Vec<String>,
        default_voice: Option<String>,
        default_begin_message: Option<String>,
    ) -> (tool: Self)
        ensures
            tool@ == (PhoneToolModel {
                api_key: api_key@,
                default_agent_id: opt_string(default_agent_id),
                default_from_number_id: opt_string(default_from_number_id),
                allowed_numbers: allowed_numbers@,
                allowed_actions: texts(allowed_actions@),
                default_voice: opt_string(default_voice),
                default_begin_message: opt_string(default_begin_message),
                sessions: None,
            }),
    {
        AgentPhoneTool {
            api_key,
            default_agent_id,
            default_from_number_id,
            allowed_numbers,
            allowed_actions,
            default_voice,
            default_begin_message,
            outbound_tracker: None,
        }
    }

    /// Set the outbound session tracker.
    pub fn with_outbound_tracker(self, tracker: OutboundSessionTracker) -> (tool: Self)
        ensures
            tool@ == (PhoneToolModel { sessions: Some(tracker@), ..self@ }),
    {
        let mut tool = self;
        tool.outbound_tracker = Some(tracker);
        tool
    }

    /// Get the outbound session tracker, if there is one.
    pub fn outbound_tracker(&self) -> (tracker: Option<&OutboundSessionTracker>)
        ensures
            match tracker {
                Some(t) => self@.sessions == Some(t@),
                None => self@.sessions is None,
            },
    {
        match &self.outbound_tracker {
            Some(tracker) => Some(tracker),
            None => None,
        }
    }

    /// Whether an action may be called.
    pub fn is_action_allowed(&self, action: &str) -> (allowed: bool)
        ensures
            allowed == self@.allowed_actions.contains(action@),
    {
        is_listed(&self.allowed_actions, action)
    }

    /// Whether a number may be called or written to.
    pub fn is_number_allowed(&self, phone: &str) -> (allowed: bool)
        ensures
            allowed == number_allowed(self@.allowed_numbers, phone@),
    {
        is_allowed(&self.allowed_numbers, phone)
    }

    /// Get the configured purpose for a number, if any.
    pub fn get_number_purpose(&self, phone: &str) -> (purpose: Option<&str>)
        ensures
            opt_str(purpose) == number_purpose(self@.allowed_numbers, phone@),
    {
        purpose_of(&self.allowed_numbers, phone)
    }

    /// Register an outbound session that begins at the time `now` on the tracker
    /// (if available).
    pub fn register_outbound_session_at(
        &mut self,
        phone: &str,
        call_id: &str,
        purpose: Option<&str>,
        is_voice: bool,
        now: u64,
    )
        ensures
            final(self)@ == old(self)@.with_session(
                phone@,
                call_id@,
                opt_str(purpose),
                is_voice,
                now,
            ),
    {
        let tracker = self.outbound_tracker.take();
        if let Some(mut tracker) = tracker {
            tracker.register_at(phone, call_id, purpose, is_voice, now);
            self.outbound_tracker = Some(tracker);
        }
    }

    /// Register an outbound session on the tracker (if available).
    pub fn register_outbound_session(
        &mut self,
        phone: &str,
        call_id: &str,
        purpose: Option<&str>,
        is_voice: bool,
    )
        ensures
            exists|time: SystemTime|
                final(self)@ == old(self)@.with_session(
                    phone@,
                    call_id@,
                    opt_str(purpose),
                    is_voice,
                    #[trigger] epoch_seconds(time),
                ),
    {
        let now = unix_seconds();
        self.register_outbound_session_at(phone, call_id, purpose, is_voice, now);
    }

    /// A request without a body.
    pub fn api_get(&self, path: &str) -> (request: HttpRequest)
        ensures
            request@ == self@.get(path@),
    {
        HttpRequest::new(
            Method::Get,
            cat2(API_BASE, path),
            self.api_key.as_str(),
            Some(REQUEST_TIMEOUT_SECS),
        )
    }

    /// A request that posts a body.
    pub fn api_post(&self, path: &str, body: Json) -> (request: HttpRequest)
        ensures
            request@ == self@.post(path@, body@),
    {
        HttpRequest::new(
            Method::Post,
            cat2(API_BASE, path),
            self.api_key.as_str(),
            Some(REQUEST_TIMEOUT_SECS),
        ).with_body(body)
    }

    /// A request that patches with a body.
    pub fn api_patch(&self, path: &str, body: Json) -> (request: HttpRequest)
        ensures
            request@ == self@.patch(path@, body@),
    {
        HttpRequest::new(
            Method::Patch,
            cat2(API_BASE, path),
            self.api_key.as_str(),
            Some(REQUEST_TIMEOUT_SECS),
        ).with_body(body)
    }

    fn agent_arg<'a>(&'a self, args: &'a Json) -> (agent_id: Option<&'a str>)
        ensures
            opt_str(agent_id) == self@.agent(args@),
    {
        either(args.str_at("agent_id"), borrowed(&self.default_agent_id))
    }

    fn list(&self, path: &str, args: &Json) -> (step: PhoneStep)
        ensures
            step@ == self@.listing(path@, args@),
    {
        let limit = u64_text(args.u64_or("limit", 20));
        ask(self.api_get(cat3(path, "?limit=", limit.as_str()).as_str()))
    }

    /// `agents.list`
    pub fn agents_list(&self, args: &Json) -> (step: PhoneStep)
        ensures
            step@ == self@.listing("/agents"@, args@),
    {
        self.list("/agents", args)
    }

    /// `agents.get`
    pub fn agents_get(&self, args: &Json) -> (step: PhoneStep)
        ensures
            step@ == self@.agents_get(args@),
    {
        match self.agent_arg(args) {
            Some(agent_id) => ask(self.api_get(cat2("/agents/", agent_id).as_str())),
            None => fail_with("agents.get requires agent_id parameter"),
        }
    }

    /// `agents.create`
    pub fn agents_create(&self, args: &Json) -> (step: PhoneStep)
        ensures
            step@ == self@.agents_create(args@),
    {
        match args.str_at("name") {
            Some(name) => {
                let mut body = JsonObject::new();
                body.set_text("name", name);
                body.set_some_text("description", args.str_at("description"));
                body.set_some_text(
                    "voice",
                    either(args.str_at("voice"), borrowed(&self.default_voice)),
                );
                body.set_some_text(
                    "beginMessage",
                    either(args.str_at("begin_message"), borrowed(&self.default_begin_message)),
                );
                body.set_some_text("voiceMode", args.str_at("voice_mode"));
                ask(self.api_post("/agents", body.into_json()))
            },
            None => fail_with("agents.create requires name parameter"),
        }
    }

    /// `agents.update`
    pub fn agents_update(&self, args: &Json) -> (step: PhoneStep)
        ensures
            step@ == self@.agents_update(args@),
    {
        match self.agent_arg(args) {
            Some(agent_id) => {
                let mut body = JsonObject::new();
                body.set_some_text("name", args.str_at("name"));
                body.set_some_text("description", args.str_at("description"));
                body.set_some_text("voice", args.str_at("voice"));
                body.set_some_text("beginMessage", args.str_at("begin_message"));
                body.set_some_text("voiceMode", args.str_at("voice_mode"));
                body.set_some_text("systemPrompt", args.str_at("system_prompt"));
                ask(self.api_patch(cat2("/agents/", agent_id).as_str(), body.into_json()))
            },
            None => fail_with("agents.update requires agent_id parameter"),
        }
    }

    /// `numbers.list`
    pub fn numbers_list(&self, args: &Json) -> (step: PhoneStep)
        ensures
            step@ == self@.listing("/numbers"@, args@),
    {
        self.list("/numbers", args)
    }

    /// `calls.list`
    pub fn calls_list(&self, args: &Json) -> (step: PhoneStep)
        ensures
            step@ == self@.listing("/calls"@, args@),
    {
        self.list("/calls", args)
    }

    /// `calls.get`
    pub fn calls_get(&self, args: &Json) -> (step: PhoneStep)
        ensures
            step@ == self@.calls_get(args@),
    {
        match args.str_at("call_id") {
            Some(call_id) => ask(self.api_get(cat2("/calls/", call_id).as_str())),
            None => fail_with("calls.get requires call_id parameter"),
        }
    }

    fn refuse_number(&self, to: &str) -> (step: PhoneStep)
        ensures
            step@ == self@.number_refused(to@),
    {
        fail(
            cat3(
                "Phone number ",
                to,
                " is not in the allowed_numbers list. Add it to [agentphone].allowed_numbers in config.toml.",
            ),
        )
    }

    fn purpose_arg<'a>(&'a self, args: &'a Json, to: &str) -> (purpose: Option<&'a str>)
        ensures
            opt_str(purpose) == self@.purpose(args@, to@),
    {
        either(args.str_at("purpose"), self.get_number_purpose(to))
    }

    /// `calls.create`
    pub fn calls_create(&self, args: &Json) -> (step: PhoneStep)
        ensures
            step@ == self@.calls_create(args@),
    {
        let to = match args.str_at("to") {
            Some(to) => to,
            None => {
                return fail_with("calls.create requires 'to' parameter (E.164 phone number)");
            },
        };
        if !self.is_number_allowed(to) {
            return self.refuse_number(to);
        }
        let agent_id = match self.agent_arg(args) {
            Some(agent_id) => agent_id,
            None => {
                return fail_with("calls.create requires agent_id (or configure default_agent_id)");
            },
        };
        let greeting = either(
            args.str_at("initial_greeting"),
            borrowed(&self.default_begin_message),
        );
        let prompt = args.str_at("system_prompt");
        let mut body = JsonObject::new();
        body.set_text("agentId", agent_id);
        body.set_text("toNumber", to);
        body.set_some_text(
            "fromNumberId",
            either(args.str_at("from_number_id"), borrowed(&self.default_from_number_id)),
        );
        body.set_some_text("voice", either(args.str_at("voice"), borrowed(&self.default_voice)));
        body.set_some_text("initialGreeting", greeting);
        body.set_some_text("systemPrompt", prompt);
        let stage = Stage::Call {
            to: to.to_string(),
            greeting: or_text(greeting, "default").to_string(),
            prompt: or_text(prompt, "none").to_string(),
            purpose: owned(self.purpose_arg(args, to)),
        };
        PhoneStep::Send(stage, self.api_post("/calls", body.into_json()))
    }

    /// `sms.send`
    pub fn sms_send(&self, args: &Json) -> (step: PhoneStep)
        ensures
            step@ == self@.sms_send(args@),
    {
        let to = match args.str_at("to") {
            Some(to) => to,
            None => {
                return fail_with("sms.send requires 'to' parameter (E.164 phone number)");
            },
        };
        if !self.is_number_allowed(to) {
            return self.refuse_number(to);
        }
        let message = match args.str_at("message") {
            Some(message) => message,
            None => {
                return fail_with("sms.send requires 'message' parameter");
            },
        };
        let agent_id = match self.agent_arg(args) {
            Some(agent_id) => agent_id,
            None => {
                return fail_with("sms.send requires agent_id (or configure default_agent_id)");
            },
        };
        let stage = Stage::SmsList {
            to: to.to_string(),
            message: message.to_string(),
            purpose: owned(self.purpose_arg(args, to)),
        };
        let path = cat3("/agents/", agent_id, "/conversations?limit=100");
        PhoneStep::Send(stage, self.api_get(path.as_str()))
    }

    /// `conversations.list`
    pub fn conversations_list(&self, args: &Json) -> (step: PhoneStep)
        ensures
            step@ == self@.listing("/conversations"@, args@),
    {
        self.list("/conversations", args)
    }

    /// `conversations.get`
    pub fn conversations_get(&self, args: &Json) -> (step: PhoneStep)
        ensures
            step@ == self@.conversations_get(args@),
    {
        match args.str_at("conversation_id") {
            Some(id) => {
                let limit = u64_text(args.u64_or("message_limit", 50));
                let path = cat4("/conversations/", id, "?message_limit=", limit.as_str());
                ask(self.api_get(path.as_str()))
            },
            None => fail_with("conversations.get requires conversation_id parameter"),
        }
    }

    /// `conversations.update`
    pub fn conversations_update(&self, args: &Json) -> (step: PhoneStep)
        ensures
            step@ == self@.conversations_update(args@),
    {
        let id = match args.str_at("conversation_id") {
            Some(id) => id,
            None => {
                return fail_with("conversations.update requires conversation_id parameter");
            },
        };
        let metadata = match args.get("metadata") {
            Some(metadata) => metadata,
            None => {
                return fail_with("conversations.update requires metadata parameter");
            },
        };
        let mut body = JsonObject::new();
        body.set("metadata", metadata.clone());
        ask(self.api_patch(cat2("/conversations/", id).as_str(), body.into_json()))
    }

    /// `usage.get`
    pub fn usage_get(&self) -> (step: PhoneStep)
        ensures
            step@ == asked(self@.get("/usage"@)),
    {
        ask(self.api_get("/usage"))
    }

    fn dispatch(&self, action: &str, args: &Json) -> (step: PhoneStep)
        ensures
            step@ == self@.dispatch(action@, args@),
    {
        if same(action, "agents.list") {
            self.agents_list(args)
        } else if same(action, "agents.get") {
            self.agents_get(args)
        } else if same(action, "agents.create") {
            self.agents_create(args)
        } else if same(action, "agents.update") {
            self.agents_update(args)
        } else if same(action, "numbers.list") {
            self.numbers_list(args)
        } else if same(action, "calls.list") {
            self.calls_list(args)
        } else if same(action, "calls.get") {
            self.calls_get(args)
        } else if same(action, "calls.create") {
            self.calls_create(args)
        } else if same(action, "sms.send") {
            self.sms_send(args)
        } else if same(action, "conversations.list") {
            self.conversations_list(args)
        } else if same(action, "conversations.get") {
            self.conversations_get(args)
        } else if same(action, "conversations.update") {
            self.conversations_update(args)
        } else {
            self.usage_get()
        }
    }

    /// The name of the tool.
    pub fn name(&self) -> (name: &str)
        ensures
            name@ == "agentphone"@,
    {
        "agentphone"
    }

    /// What the tool is for.
    pub fn description(&self) -> (description: &str)
        ensures
            description@
                == "Interact with AgentPhone: send SMS, place/list calls, manage agents and phone numbers, view conversations, and monitor usage."@,
    {
        "Interact with AgentPhone: send SMS, place/list calls, manage agents and phone numbers, view conversations, and monitor usage."
    }

    /// The first step of a call: whether it is refused, or for what kind of
    /// operation the policy is to be asked.
    pub fn execute_start(&self, args: &Json) -> (admission: Admission)
        ensures
            admission@ == self@.admission(args@),
    {
        let action = match args.str_at("action") {
            Some(action) => action,
            None => {
                return Admission::Refused(
                    ToolResult::refusal("Missing required parameter: action"),
                );
            },
        };
        let operation = match operation_of(action) {
            Some(operation) => operation,
            None => {
                return Admission::Refused(
                    ToolResult::error(
                        cat3(
                            "Unknown action: ",
                            action,
                            ". Valid actions: agents.list, agents.get, agents.create, agents.update, numbers.list, calls.list, calls.get, calls.create, sms.send, conversations.list, conversations.get, conversations.update, usage.get",
                        ),
                    ),
                );
            },
        };
        if !self.is_action_allowed(action) {
            let listed = join(&self.allowed_actions, ", ");
            return Admission::Refused(
                ToolResult::error(
                    cat4(
                        "Action '",
                        action,
                        "' is not enabled. Add it to [agentphone].allowed_actions in config.toml. Currently allowed: ",
                        listed.as_str(),
                    ),
                ),
            );
        }
        Admission::Granted(operation)
    }

    /// The second step of a call, with what the policy said of the operation.
    pub fn execute_authorized(&self, args: &Json, verdict: Result<(), String>) -> (step: PhoneStep)
        ensures
            step@ == self@.execution(args@, verdict_model(verdict)),
    {
        match self.execute_start(args) {
            Admission::Refused(result) => end(result),
            Admission::Granted(_) => match verdict {
                Err(refusal) => fail(refusal),
                Ok(_) => match args.str_at("action") {
                    Some(action) => self.dispatch(action, args),
                    None => end(ToolResult::refusal("Missing required parameter: action")),
                },
            },
        }
    }

    /// What to do at the time `now` with the answer to a request.
    pub fn execute_answered_at(
        &mut self,
        stage: Stage,
        answer: Result<Json, String>,
        now: u64,
    ) -> (step: PhoneStep)
        ensures
            step@ == old(self)@.after(stage@, json_result(answer), now),
            final(self)@ == old(self)@.registered(step@, now),
    {
        match stage {
            Stage::Plain => end(print_result(answer)),
            Stage::Call { to, greeting, prompt, purpose } => {
                let data = match answer {
                    Ok(data) => data,
                    Err(error) => {
                        return fail(error);
                    },
                };
                let call_id = or_text(data.str_at("id"), "unknown").to_string();
                self.register_outbound_session_at(
                    to.as_str(),
                    call_id.as_str(),
                    borrowed(&purpose),
                    true,
                    now,
                );
                let time = u64_text(now);
                let opening = cat5(
                    "[outbound call placed] to: ",
                    to.as_str(),
                    ", greeting: ",
                    greeting.as_str(),
                    ", prompt: ",
                );
                let content = cat4(
                    opening.as_str(),
                    prompt.as_str(),
                    ", purpose: ",
                    or_text(borrowed(&purpose), "none"),
                );
                let memory = MemoryNote {
                    key: cat4("agentphone_out_", to.as_str(), "_", time.as_str()),
                    content,
                    session_id: cat2("agentphone_voice_", to.as_str()),
                };
                PhoneStep::Done(
                    Outcome {
                        result: print_result(Ok(data)),
                        registration: Some(
                            Registration { phone: to, call_id, purpose, is_voice: true },
                        ),
                        memory: Some(memory),
                    },
                )
            },
            Stage::SmsList { to, message, purpose } => {
                let data = match answer {
                    Ok(data) => data,
                    Err(error) => {
                        return fail(cat2("Failed to list conversations: ", error.as_str()));
                    },
                };
                match find_conversation(&data, to.as_str()) {
                    Some(conversation_id) => {
                        let request = make_reply_request(
                            conversation_id.as_str(),
                            message.as_str(),
                            self.api_key.as_str(),
                            Some(REQUEST_TIMEOUT_SECS),
                        );
                        PhoneStep::Send(
                            Stage::SmsReply { to, message, purpose, conversation_id },
                            request,
                        )
                    },
                    None => fail(
                        cat3(
                            "No existing conversation found with ",
                            to.as_str(),
                            ". An inbound message is required before sending SMS.",
                        ),
                    ),
                }
            },
            Stage::SmsReply { to, message, purpose, conversation_id } => {
                let data = match answer {
                    Ok(data) => data,
                    Err(error) => {
                        return fail(error);
                    },
                };
                self.register_outbound_session_at(
                    to.as_str(),
                    conversation_id.as_str(),
                    borrowed(&purpose),
                    false,
                    now,
                );
                let time = u64_text(now);
                let opening = cat5(
                    "[outbound SMS sent] to: ",
                    to.as_str(),
                    ", message: ",
                    message.as_str(),
                    ", purpose: ",
                );
                let memory = MemoryNote {
                    key: cat4("agentphone_out_", to.as_str(), "_", time.as_str()),
                    content: cat2(opening.as_str(), or_text(borrowed(&purpose), "none")),
                    session_id: cat2("agentphone_sms_", to.as_str()),
                };
                PhoneStep::Done(
                    Outcome {
                        result: print_result(Ok(data)),
                        registration: Some(
                            Registration {
                                phone: to,
                                call_id: conversation_id,
                                purpose,
                                is_voice: false,
                            },
                        ),
                        memory: Some(memory),
                    },
                )
            },
        }
    }

    /// What to do at the time `now` with the reply to a request.
    pub fn execute_reply_at(
        &mut self,
        stage: Stage,
        reply: Result<HttpReply, String>,
        now: u64,
    ) -> (step: PhoneStep)
        requires
            reportable(reply_model(reply)),
        ensures
            step@ == old(self)@.after(
                stage@,
                answer(reply_model(reply), body_read(reply_model(reply))),
                now,
            ),
            final(self)@ == old(self)@.registered(step@, now),
    {
        self.execute_answered_at(stage, handle_response(reply), now)
    }

    /// What to do with the reply to a request.
    pub fn execute_reply(&mut self, stage: Stage, reply: Result<HttpReply, String>) -> (step:
        PhoneStep)
        requires
            reportable(reply_model(reply)),
        ensures
            exists|time: SystemTime|
                step@ == old(self)@.after(
                    stage@,
                    answer(reply_model(reply), body_read(reply_model(reply))),
                    #[trigger] epoch_seconds(time),
                ) && final(self)@ == old(self)@.registered(step@, epoch_seconds(time)),
    {
        let now = unix_seconds();
        self.execute_reply_at(stage, reply, now)
    }
}

/// The parameters of the tool.
pub open spec fn phone_properties() -> Map<Seq<char>, JsonModel> {
    Map::empty().insert(
        "action"@,
        choice_model(phone_actions(), "The AgentPhone API action to perform"@),
    ).insert(
        "agent_id"@,
        string_model("Agent ID. Defaults to configured default_agent_id if omitted."@),
    ).insert(
        "call_id"@,
        string_model("Call ID (for calls.get)"@),
    ).insert(
        "conversation_id"@,
        string_model("Conversation ID (for conversations.get/update)"@),
    ).insert(
        "to"@,
        string_model("Destination phone number in E.164 format (for sms.send, calls.create)"@),
    ).insert(
        "message"@,
        string_model("SMS message text (for sms.send)"@),
    ).insert(
        "from_number_id"@,
        string_model("Phone number ID to call/send from (for calls.create, sms.send)"@),
    ).insert(
        "name"@,
        string_model("Agent name (for agents.create/update)"@),
    ).insert(
        "description"@,
        string_model("Agent description (for agents.create/update)"@),
    ).insert(
        "voice"@,
        string_model("TTS voice (e.g. \"Polly.Amy\") for calls.create or agents.create/update"@),
    ).insert(
        "voice_mode"@,
        choice_model(seq!["webhook"@, "hosted"@], "Voice mode for agents.create/update"@),
    ).insert(
        "initial_greeting"@,
        string_model("Greeting message for outbound calls (calls.create)"@),
    ).insert(
        "system_prompt"@,
        string_model("System prompt for hosted voice mode (agents.update, calls.create)"@),
    ).insert(
        "begin_message"@,
        string_model("Begin message for inbound calls (agents.create/update)"@),
    ).insert(
        "purpose"@,
        string_model("Purpose of this outbound contact, e.g. 'schedule dentist appointment'. Used to scope information disclosure during the conversation. (for calls.create, sms.send)"@),
    ).insert(
        "metadata"@,
        typed_model("object"@, "Metadata object (for conversations.update)"@),
    ).insert(
        "message_limit"@,
        range_model(1, 100, "Number of messages to return (for conversations.get, default: 50)"@),
    ).insert(
        "limit"@,
        range_model(1, 100, "Number of results to return (default: 20)"@),
    )
}

impl AgentPhoneTool {
    /// The parameters of the tool, as a JSON schema.
    pub fn parameters_schema(&self) -> (schema: Json)
        ensures
            schema@ == schema_model(phone_properties()),
    {
        let actions: Vec<&str> = vec![
            "agents.list",
            "agents.get",
            "agents.create",
            "agents.update",
            "numbers.list",
            "calls.list",
            "calls.get",
            "calls.create",
            "sms.send",
            "conversations.list",
            "conversations.get",
            "conversations.update",
            "usage.get",
        ];
        assert(str_texts(actions@) =~= phone_actions());
        let modes: Vec<&str> = vec!["webhook", "hosted"];
        assert(str_texts(modes@) =~= seq!["webhook"@, "hosted"@]);
        let mut properties = JsonObject::new();
        properties.set(
            "action",
            choice_property(&actions, "The AgentPhone API action to perform"),
        );
        properties.set(
            "agent_id",
            string_property("Agent ID. Defaults to configured default_agent_id if omitted."),
        );
        properties.set(
            "call_id",
            string_property("Call ID (for calls.get)"),
        );
        properties.set(
            "conversation_id",
            string_property("Conversation ID (for conversations.get/update)"),
        );
        properties.set(
            "to",
            string_property("Destination phone number in E.164 format (for sms.send, calls.create)"),
        );
        properties.set(
            "message",
            string_property("SMS message text (for sms.send)"),
        );
        properties.set(
            "from_number_id",
            string_property("Phone number ID to call/send from (for calls.create, sms.send)"),
        );
        properties.set(
            "name",
            string_property("Agent name (for agents.create/update)"),
        );
        properties.set(
            "description",
            string_property("Agent description (for agents.create/update)"),
        );
        properties.set(
            "voice",
            string_property("TTS voice (e.g. \"Polly.Amy\") for calls.create or agents.create/update"),
        );
        properties.set(
            "voice_mode",
            choice_property(&modes, "Voice mode for agents.create/update"),
        );
        properties.set(
            "initial_greeting",
            string_property("Greeting message for outbound calls (calls.create)"),
        );
        properties.set(
            "system_prompt",
            string_property("System prompt for hosted voice mode (agents.update, calls.create)"),
        );
        properties.set(
            "begin_message",
            string_property("Begin message for inbound calls (agents.create/update)"),
        );
        properties.set(
            "purpose",
            string_property("Purpose of this outbound contact, e.g. 'schedule dentist appointment'. Used to scope information disclosure during the conversation. (for calls.create, sms.send)"),
        );
        properties.set(
            "metadata",
            typed_property("object", "Metadata object (for conversations.update)"),
        );
        properties.set(
            "message_limit",
            range_property(1, 100, "Number of messages to return (for conversations.get, default: 50)"),
        );
        properties.set(
            "limit",
            range_property(1, 100, "Number of results to return (default: 20)"),
        );
        parameter_schema(properties)
    }
}

/// The actions that the schema lists are exactly those that the tool knows.
pub proof fn law_schema_lists_the_known_actions(action: Seq<char>)
    ensures
        phone_actions().contains(action) <==> phone_operation(action) is Some,
        phone_actions().len() == 13,
{
    let all = phone_actions();
    assert(all[0] == "agents.list"@);
    assert(all[1] == "agents.get"@);
    assert(all[2] == "agents.create"@);
    assert(all[3] == "agents.update"@);
    assert(all[4] == "numbers.list"@);
    assert(all[5] == "calls.list"@);
    assert(all[6] == "calls.get"@);
    assert(all[7] == "calls.create"@);
    assert(all[8] == "sms.send"@);
    assert(all[9] == "conversations.list"@);
    assert(all[10] == "conversations.get"@);
    assert(all[11] == "conversations.update"@);
    assert(all[12] == "usage.get"@);
}

/// Nothing is sent unless the action is known, enabled and not refused by the
/// policy; a call that sends nothing has failed, and leaves nothing behind.
pub proof fn law_phone_requests_are_gated(
    tool: PhoneToolModel,
    args: JsonModel,
    refusal: Option<Seq<char>>,
)
    ensures
        match tool.execution(args, refusal) {
            PhoneStepModel::Send(_, _) => {
                &&& text_at(args, "action"@) is Some
                &&& phone_operation(text_at(args, "action"@)->0) is Some
                &&& tool.allowed_actions.contains(text_at(args, "action"@)->0)
                &&& refusal is None
            },
            PhoneStepModel::Done(outcome) => {
                &&& !outcome.result.success
                &&& outcome.result.error is Some
                &&& outcome.result.output.len() == 0
                &&& outcome.registration is None
                &&& outcome.memory is None
            },
        },
{
}

/// A call is placed and an SMS is sent only to a number that is allowed.
pub proof fn law_outbound_contacts_are_allowed(
    tool: PhoneToolModel,
    args: JsonModel,
    refusal: Option<Seq<char>>,
)
    ensures
        match tool.execution(args, refusal) {
            PhoneStepModel::Send(StageModel::Call { to, .. }, _) => number_allowed(
                tool.allowed_numbers,
                to,
            ),
            PhoneStepModel::Send(StageModel::SmsList { to, .. }, _) => number_allowed(
                tool.allowed_numbers,
                to,
            ),
            _ => true,
        },
        text_at(args, "action"@) == Some("calls.create"@) || text_at(args, "action"@) == Some(
            "sms.send"@,
        ) ==> {
            tool.execution(args, refusal) is Send ==> text_at(args, "to"@) is Some
                && number_allowed(tool.allowed_numbers, text_at(args, "to"@)->0)
        },
{
    reveal_strlit("calls.create");
    reveal_strlit("sms.send");
    reveal_strlit("agents.list");
    reveal_strlit("agents.get");
    reveal_strlit("agents.create");
    reveal_strlit("agents.update");
    reveal_strlit("numbers.list");
    reveal_strlit("calls.list");
    reveal_strlit("calls.get");
    assert("calls.create"@[0] == 'c' && "calls.create"@[6] == 'c' && "calls.create"@.len() == 12);
    assert("sms.send"@[0] == 's');
    assert("agents.list"@[0] == 'a' && "agents.get"@[0] == 'a' && "agents.create"@[0] == 'a');
    assert("agents.update"@[0] == 'a' && "numbers.list"@[0] == 'n');
    assert("calls.list"@.len() == 10 && "calls.get"@.len() == 9);
}

/// The second request of an SMS is for the number and the message of the first.
pub proof fn law_sms_reply_keeps_number_and_message(
    tool: PhoneToolModel,
    to: Seq<char>,
    message: Seq<char>,
    purpose: Option<Seq<char>>,
    listing: JsonModel,
    now: u64,
)
    ensures
        match tool.after(StageModel::SmsList { to, message, purpose }, Ok(listing), now) {
            PhoneStepModel::Send(stage, request) => {
                &&& found_conversation(listing, to) is Some
                &&& stage == StageModel::SmsReply {
                    to,
                    message,
                    purpose,
                    conversation_id: found_conversation(listing, to)->0,
                }
                &&& request.body == Some(reply_body(message))
            },
            PhoneStepModel::Done(outcome) => {
                &&& found_conversation(listing, to) is None
                &&& !outcome.result.success
            },
        },
{
}

/// The purpose that a call names wins over the one that is configured.
pub proof fn law_explicit_purpose_wins(
    tool: PhoneToolModel,
    args: JsonModel,
    to: Seq<char>,
    purpose: Seq<char>,
)
    ensures
        text_at(args, "purpose"@) == Some(purpose) ==> tool.purpose(args, to) == Some(purpose),
        text_at(args, "purpose"@) is None ==> tool.purpose(args, to) == number_purpose(
            tool.allowed_numbers,
            to,
        ),
{
}

/// A contact is registered and noted exactly when the request that makes it was
/// answered well; from then on, where the tool tracks sessions, the number has
/// an active session until its time is over.
pub proof fn law_contact_is_registered_on_success(
    tool: PhoneToolModel,
    stage: StageModel,
    answer: Result<JsonModel, Seq<char>>,
    started: u64,
    now: u64,
)
    ensures
        match tool.after(stage, answer, started) {
            PhoneStepModel::Done(outcome) => {
                &&& outcome.registration is Some <==> answer is Ok && (stage is Call || stage is SmsReply)
                &&& outcome.registration is Some <==> outcome.memory is Some
                &&& outcome.registration is Some ==> outcome.result.success
                &&& outcome.registration is Some && tool.sessions is Some ==> {
                    let r = outcome.registration->0;
                    let after = tool.registered(tool.after(stage, answer, started), started);
                    &&& after.sessions is Some
                    &&& active_at(after.sessions->0, r.phone, now) <==> now <= started + session_ttl(
                        r.is_voice,
                    )
                }
            },
            PhoneStepModel::Send(_, _) => stage is SmsList && answer is Ok,
        },
{
}

/// A channel on which a contact of the tool is registered may write to the number
/// until the session is over, and where the number is allowed also after that.
pub proof fn law_contact_may_be_written_to(
    tool: PhoneToolModel,
    channel: ChannelModel,
    stage: StageModel,
    answer: Result<JsonModel, Seq<char>>,
    started: u64,
    now: u64,
)
    ensures
        match tool.after(stage, answer, started) {
            PhoneStepModel::Done(outcome) => outcome.registration is Some ==> {
                let r = outcome.registration->0;
                channel.with_contact(r, started).may_send_to(r.phone, now) <==> {
                    ||| number_allowed(channel.allowed_numbers, r.phone)
                    ||| now <= started + session_ttl(r.is_voice)
                }
            },
            PhoneStepModel::Send(_, _) => true,
        },
{
}

/// A tool and a channel that track the same sessions still do after a step, where
/// the channel is handed the contact that the step registers. So what the tool
/// registers is what the channel finds.
pub proof fn law_tool_and_channel_track_the_same(
    tool: PhoneToolModel,
    channel: ChannelModel,
    stage: StageModel,
    answer: Result<JsonModel, Seq<char>>,
    now: u64,
    phone: Seq<char>,
    later: u64,
)
    requires
        tool.sessions == Some(channel.sessions),
    ensures
        ({
            let step = tool.after(stage, answer, now);
            let handed = match step {
                PhoneStepModel::Done(outcome) => match outcome.registration {
                    Some(contact) => channel.with_contact(contact, now),
                    None => channel,
                },
                PhoneStepModel::Send(_, _) => channel,
            };
            let kept = tool.registered(step, now).sessions;
            &&& kept == Some(handed.sessions)
            &&& active_at(kept->0, phone, later) == active_at(handed.sessions, phone, later)
            &&& active_purpose(kept->0, phone, later) == active_purpose(
                handed.sessions,
                phone,
                later,
            )
        }),
{
}

/// A request is answered well exactly when there is a reply, it reports success,
/// and its body is empty or JSON.
pub proof fn law_answer_needs_a_successful_reply(
    reply: Result<ReplyModel, Seq<char>>,
    body: Result<JsonModel, Seq<char>>,
)
    ensures
        answer(reply, body) is Ok <==> {
            &&& reply is Ok
            &&& reply->Ok_0.success()
            &&& reply->Ok_0.body.len() == 0 || body is Ok
        },
{
}

} // verus!
