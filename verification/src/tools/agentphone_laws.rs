//! What holds of the AgentPhone tool as a whole: for each action, what is asked of
//! the API for the arguments that are given, and what becomes of the answer.
use vstd::prelude::*;
use vstd::utf8::encode_utf8;
use crate::channels::agentphone::found_conversation;
use crate::config::{law_allowed_by_number_or_wildcard, number_purpose};
use crate::http::{Method, ReplyModel, RequestModel};
use crate::json::{field, text_at, unsigned_at, JsonModel};
use crate::json_text::pretty;
use crate::text::{cut, decimal, joined, law_where_a_text_can_be_cut};
use crate::tools::agentphone_tool::{
    answer, phone_properties, reportable, PhoneStepModel, PhoneToolModel, StageModel,
};
use crate::tools::result::{AdmissionModel, ToolOperation};
use crate::tools::schema::schema_model;

verus! {

/// A number by which the texts below are told apart.
spec fn mark(s: Seq<char>) -> int {
    let n: int = s.len() as int;
    n + 64 * (s[0] as int) + 16384 * (s[n / 2] as int) + 4194304 * (s[n - 1] as int) + 1073741824 * (
    s[n / 3] as int) + 274877906944 * (s[(2 * n) / 3] as int)
        + 70368744177664 * (s[(3 * n) / 4] as int)
}

proof fn lemma_actions_differ()
    ensures
        mark("agents.create"@) == 7138704221771853,
        mark("agents.get"@) == 7260743634049098,
        mark("agents.list"@) == 7418523552634955,
        mark("agents.update"@) == 7067785721780301,
        mark("calls.create"@) == 6853654759397580,
        mark("calls.get"@) == 7276409527261385,
        mark("calls.list"@) == 7418521404020938,
        mark("conversations.get"@) == 8122765045209297,
        mark("conversations.list"@) == 3268697160046802,
        mark("conversations.update"@) == 7894067637377236,
        mark("numbers.list"@) == 7418513888959372,
        mark("sms.send"@) == 7768448429776072,
        mark("usage.get"@) == 7276404158324041,
{
    reveal_strlit("agents.create");
    reveal_strlit("agents.get");
    reveal_strlit("agents.list");
    reveal_strlit("agents.update");
    reveal_strlit("calls.create");
    reveal_strlit("calls.get");
    reveal_strlit("calls.list");
    reveal_strlit("conversations.get");
    reveal_strlit("conversations.list");
    reveal_strlit("conversations.update");
    reveal_strlit("numbers.list");
    reveal_strlit("sms.send");
    reveal_strlit("usage.get");
}

proof fn lemma_members_differ()
    ensures
        mark("agentId"@) == 5168913031338055,
        mark("beginMessage"@) == 6857497681418380,
        mark("description"@) == 7420710739400971,
        mark("fromNumberId"@) == 8049883677940108,
        mark("initialGreeting"@) == 8190641579350607,
        mark("metadata"@) == 8189562444127048,
        mark("name"@) == 7137309432175492,
        mark("systemPrompt"@) == 7700813498817740,
        mark("toNumber"@) == 7134265428630792,
        mark("voice"@) == 6993838197071237,
        mark("voiceMode"@) == 7841548777119113,
{
    reveal_strlit("agentId");
    reveal_strlit("beginMessage");
    reveal_strlit("description");
    reveal_strlit("fromNumberId");
    reveal_strlit("initialGreeting");
    reveal_strlit("metadata");
    reveal_strlit("name");
    reveal_strlit("systemPrompt");
    reveal_strlit("toNumber");
    reveal_strlit("voice");
    reveal_strlit("voiceMode");
}

/// Whether a call is one of an action that is enabled.
pub open spec fn enabled(tool: PhoneToolModel, args: JsonModel, action: Seq<char>) -> bool {
    text_at(args, "action"@) == Some(action) && tool.allowed_actions.contains(action)
}

/// Whether a number is on the list of the tool, by itself or by the wildcard.
pub open spec fn on_the_list(tool: PhoneToolModel, number: Seq<char>) -> bool {
    exists|i: int|
        0 <= i < tool.allowed_numbers.len() && ((#[trigger] tool.allowed_numbers[i]).number_text()
            == number || tool.allowed_numbers[i].number_text() == "*"@)
}

/// Whether a request goes to a path of the API with the tool's key.
pub open spec fn goes_to(
    tool: PhoneToolModel,
    request: RequestModel,
    method: Method,
    path: Seq<char>,
) -> bool {
    &&& request.method == method
    &&& request.url == "https://api.agentphone.to/v1"@ + path
    &&& request.headers == seq![("Authorization"@, "Bearer "@ + tool.api_key)]
    &&& request.query.len() == 0
    &&& request.timeout_secs == Some(30u64)
}

/// Whether a step asks for a path without a body, to print what is answered.
pub open spec fn looks_up(tool: PhoneToolModel, step: PhoneStepModel, path: Seq<char>) -> bool {
    &&& step is Send
    &&& step->Send_0 == StageModel::Plain
    &&& goes_to(tool, step->Send_1, Method::Get, path)
    &&& step->Send_1.body is None
}

/// Whether a step ends a call with an error, and leaves nothing behind.
pub open spec fn fails(step: PhoneStepModel, message: Seq<char>) -> bool {
    &&& step is Done
    &&& !step->Done_0.result.success
    &&& step->Done_0.result.output.len() == 0
    &&& step->Done_0.result.error == Some(message)
    &&& step->Done_0.registration is None
    &&& step->Done_0.memory is None
}

/// Whether a text is the one that is given, or the default where none is given.
pub open spec fn given_or_default(
    text: Option<Seq<char>>,
    given: Option<Seq<char>>,
    default: Option<Seq<char>>,
) -> bool {
    &&& given is Some ==> text == given
    &&& given is None ==> text == default
}

/// A call without an action, of an unknown action or of one that is not enabled
/// fails and says so, and so does one that the policy refuses. Of the thirteen
/// actions five act and the others read.
pub proof fn law_which_calls_are_admitted(
    tool: PhoneToolModel,
    args: JsonModel,
    refusal: Option<Seq<char>>,
)
    ensures
        ({
            let action = text_at(args, "action"@);
            let step = tool.execution(args, refusal);
            let acting = action is Some && (action->0 == "agents.create"@ || action->0 == "agents.update"@ || action->0 == "calls.create"@ || action->0 == "sms.send"@ || action->0 == "conversations.update"@);
            let reading = action is Some && (action->0 == "agents.list"@ || action->0 == "agents.get"@ || action->0 == "numbers.list"@ || action->0 == "calls.list"@ || action->0 == "calls.get"@ || action->0 == "conversations.list"@ || action->0 == "conversations.get"@ || action->0 == "usage.get"@);
            &&& action is None ==> fails(step, "Missing required parameter: action"@)
            &&& action is Some && !acting && !reading ==> {
                &&& tool.admission(args) is Refused
                &&& fails(
                    step,
                    "Unknown action: "@ + action->0
                        + ". Valid actions: agents.list, agents.get, agents.create, agents.update, numbers.list, calls.list, calls.get, calls.create, sms.send, conversations.list, conversations.get, conversations.update, usage.get"@,
                )
            }
            &&& (acting || reading) && !tool.allowed_actions.contains(action->0) ==> {
                &&& tool.admission(args) is Refused
                &&& fails(
                    step,
                    "Action '"@ + action->0
                        + "' is not enabled. Add it to [agentphone].allowed_actions in config.toml. Currently allowed: "@
                        + joined(tool.allowed_actions, ", "@),
                )
            }
            &&& acting && tool.allowed_actions.contains(action->0) ==> tool.admission(args)
                == AdmissionModel::Granted(ToolOperation::Act)
            &&& reading && tool.allowed_actions.contains(action->0) ==> tool.admission(args)
                == AdmissionModel::Granted(ToolOperation::Read)
            &&& (acting || reading) && tool.allowed_actions.contains(action->0) && refusal is Some
                ==> fails(step, refusal->0)
        }),
{
    lemma_actions_differ();
}

/// A list asks for as many results as are asked for, and for twenty where no
/// number is given.
pub proof fn law_lists_are_limited(tool: PhoneToolModel, args: JsonModel)
    ensures
        ({
            let limit = match unsigned_at(args, "limit"@) {
                Some(n) => n,
                None => 20u64,
            };
            let query = "?limit="@ + decimal(limit as nat);
            let step = tool.execution(args, None);
            &&& enabled(tool, args, "agents.list"@) ==> looks_up(tool, step, "/agents"@ + query)
            &&& enabled(tool, args, "numbers.list"@) ==> looks_up(tool, step, "/numbers"@ + query)
            &&& enabled(tool, args, "calls.list"@) ==> looks_up(tool, step, "/calls"@ + query)
            &&& enabled(tool, args, "conversations.list"@) ==> looks_up(
                tool,
                step,
                "/conversations"@ + query,
            )
        }),
{
    lemma_actions_differ();
    let limit = match unsigned_at(args, "limit"@) {
        Some(n) => n,
        None => 20u64,
    };
    let base = "https://api.agentphone.to/v1"@;
    let n = decimal(limit as nat);
    assert forall|path: Seq<char>| #[trigger] (path + "?limit="@ + n) == path + ("?limit="@ + n) by {
        assert(path + "?limit="@ + n =~= path + ("?limit="@ + n));
    }
}

/// An agent, a call or a conversation is looked up by the identifier that is
/// given, an agent also by the configured one, and usage without any.
pub proof fn law_items_are_looked_up(tool: PhoneToolModel, args: JsonModel)
    ensures
        ({
            let step = tool.execution(args, None);
            let agent = text_at(args, "agent_id"@);
            let call = text_at(args, "call_id"@);
            let conversation = text_at(args, "conversation_id"@);
            let messages = match unsigned_at(args, "message_limit"@) {
                Some(n) => n,
                None => 50u64,
            };
            &&& enabled(tool, args, "agents.get"@) ==> {
                &&& agent is Some ==> looks_up(tool, step, "/agents/"@ + agent->0)
                &&& agent is None && tool.default_agent_id is Some ==> looks_up(
                    tool,
                    step,
                    "/agents/"@ + tool.default_agent_id->0,
                )
                &&& agent is None && tool.default_agent_id is None ==> fails(
                    step,
                    "agents.get requires agent_id parameter"@,
                )
            }
            &&& enabled(tool, args, "calls.get"@) ==> {
                &&& call is Some ==> looks_up(tool, step, "/calls/"@ + call->0)
                &&& call is None ==> fails(step, "calls.get requires call_id parameter"@)
            }
            &&& enabled(tool, args, "conversations.get"@) ==> {
                &&& conversation is Some ==> looks_up(
                    tool,
                    step,
                    "/conversations/"@ + conversation->0 + "?message_limit="@ + decimal(
                        messages as nat,
                    ),
                )
                &&& conversation is None ==> fails(
                    step,
                    "conversations.get requires conversation_id parameter"@,
                )
            }
            &&& enabled(tool, args, "usage.get"@) ==> looks_up(tool, step, "/usage"@)
        }),
{
    lemma_actions_differ();
}

/// A new agent has the name and the description that are given, the voice and the
/// greeting that are given or else configured, and nothing else.
pub proof fn law_new_agent_is_as_asked_for(tool: PhoneToolModel, args: JsonModel)
    requires
        enabled(tool, args, "agents.create"@),
    ensures
        ({
            let step = tool.execution(args, None);
            let body = step->Send_1.body->0;
            &&& text_at(args, "name"@) is None ==> fails(
                step,
                "agents.create requires name parameter"@,
            )
            &&& text_at(args, "name"@) is Some ==> {
                &&& step is Send
                &&& step->Send_0 == StageModel::Plain
                &&& goes_to(tool, step->Send_1, Method::Post, "/agents"@)
                &&& step->Send_1.body is Some
                &&& text_at(body, "name"@) == text_at(args, "name"@)
                &&& text_at(body, "description"@) == text_at(args, "description"@)
                &&& given_or_default(
                    text_at(body, "voice"@),
                    text_at(args, "voice"@),
                    tool.default_voice,
                )
                &&& given_or_default(
                    text_at(body, "beginMessage"@),
                    text_at(args, "begin_message"@),
                    tool.default_begin_message,
                )
                &&& text_at(body, "voiceMode"@) == text_at(args, "voice_mode"@)
                &&& forall|key: Seq<char>| #[trigger]
                    field(body, key) is Some ==> key == "name"@ || key == "description"@ || key == "voice"@ || key == "beginMessage"@ || key == "voiceMode"@
            }
        }),
{
    lemma_actions_differ();
    lemma_members_differ();
}

/// A changed agent is the one that is given or else configured, and what changes
/// is what is given, and nothing else: defaults do not come in.
pub proof fn law_changed_agent_is_as_asked_for(tool: PhoneToolModel, args: JsonModel)
    requires
        enabled(tool, args, "agents.update"@),
    ensures
        ({
            let step = tool.execution(args, None);
            let body = step->Send_1.body->0;
            let given = text_at(args, "agent_id"@);
            &&& given is None && tool.default_agent_id is None ==> fails(
                step,
                "agents.update requires agent_id parameter"@,
            )
            &&& given is Some || tool.default_agent_id is Some ==> {
                &&& step is Send
                &&& step->Send_0 == StageModel::Plain
                &&& given is Some ==> goes_to(
                    tool,
                    step->Send_1,
                    Method::Patch,
                    "/agents/"@ + given->0,
                )
                &&& given is None ==> goes_to(
                    tool,
                    step->Send_1,
                    Method::Patch,
                    "/agents/"@ + tool.default_agent_id->0,
                )
                &&& step->Send_1.body is Some
                &&& text_at(body, "name"@) == text_at(args, "name"@)
                &&& text_at(body, "description"@) == text_at(args, "description"@)
                &&& text_at(body, "voice"@) == text_at(args, "voice"@)
                &&& text_at(body, "beginMessage"@) == text_at(args, "begin_message"@)
                &&& text_at(body, "voiceMode"@) == text_at(args, "voice_mode"@)
                &&& text_at(body, "systemPrompt"@) == text_at(args, "system_prompt"@)
                &&& forall|key: Seq<char>| #[trigger]
                    field(body, key) is Some ==> key == "name"@ || key == "description"@ || key == "voice"@ || key == "beginMessage"@ || key == "voiceMode"@ || key == "systemPrompt"@
            }
        }),
{
    lemma_actions_differ();
    lemma_members_differ();
}

/// The metadata of a conversation is set to what is given.
pub proof fn law_metadata_is_set(tool: PhoneToolModel, args: JsonModel)
    requires
        enabled(tool, args, "conversations.update"@),
    ensures
        ({
            let step = tool.execution(args, None);
            let body = step->Send_1.body->0;
            let id = text_at(args, "conversation_id"@);
            &&& id is None ==> fails(
                step,
                "conversations.update requires conversation_id parameter"@,
            )
            &&& id is Some && field(args, "metadata"@) is None ==> fails(
                step,
                "conversations.update requires metadata parameter"@,
            )
            &&& id is Some && field(args, "metadata"@) is Some ==> {
                &&& step is Send
                &&& step->Send_0 == StageModel::Plain
                &&& goes_to(tool, step->Send_1, Method::Patch, "/conversations/"@ + id->0)
                &&& step->Send_1.body is Some
                &&& field(body, "metadata"@) == field(args, "metadata"@)
                &&& forall|key: Seq<char>| #[trigger]
                    field(body, key) is Some ==> key == "metadata"@
            }
        }),
{
    lemma_actions_differ();
}

/// A call is placed to the number that is given, where it is on the list: what is
/// given for the agent, the number to call from, the voice and the greeting wins
/// over what is configured, and the prompt is the one that is given. Nothing else
/// is said. What is kept for the answer is the same.
pub proof fn law_call_is_placed_as_asked_for(tool: PhoneToolModel, args: JsonModel)
    requires
        enabled(tool, args, "calls.create"@),
    ensures
        ({
            let step = tool.execution(args, None);
            let body = step->Send_1.body->0;
            let stage = step->Send_0;
            let to = text_at(args, "to"@);
            let agent = text_at(args, "agent_id"@);
            &&& to is None ==> fails(
                step,
                "calls.create requires 'to' parameter (E.164 phone number)"@,
            )
            &&& to is Some && !on_the_list(tool, to->0) ==> fails(
                step,
                "Phone number "@ + to->0
                    + " is not in the allowed_numbers list. Add it to [agentphone].allowed_numbers in config.toml."@,
            )
            &&& to is Some && on_the_list(tool, to->0) && agent is None
                && tool.default_agent_id is None ==> fails(
                step,
                "calls.create requires agent_id (or configure default_agent_id)"@,
            )
            &&& to is Some && on_the_list(tool, to->0) && (agent is Some
                || tool.default_agent_id is Some) ==> {
                &&& step is Send
                &&& goes_to(tool, step->Send_1, Method::Post, "/calls"@)
                &&& step->Send_1.body is Some
                &&& text_at(body, "toNumber"@) == to
                &&& given_or_default(text_at(body, "agentId"@), agent, tool.default_agent_id)
                &&& given_or_default(
                    text_at(body, "fromNumberId"@),
                    text_at(args, "from_number_id"@),
                    tool.default_from_number_id,
                )
                &&& given_or_default(
                    text_at(body, "voice"@),
                    text_at(args, "voice"@),
                    tool.default_voice,
                )
                &&& given_or_default(
                    text_at(body, "initialGreeting"@),
                    text_at(args, "initial_greeting"@),
                    tool.default_begin_message,
                )
                &&& text_at(body, "systemPrompt"@) == text_at(args, "system_prompt"@)
                &&& forall|key: Seq<char>| #[trigger]
                    field(body, key) is Some ==> key == "agentId"@ || key == "toNumber"@ || key == "fromNumberId"@ || key == "voice"@ || key == "initialGreeting"@ || key == "systemPrompt"@
                &&& stage is Call
                &&& Some(stage->Call_to) == to
                &&& given_or_default(
                    Some(stage->greeting),
                    text_at(body, "initialGreeting"@),
                    Some("default"@),
                )
                &&& given_or_default(
                    Some(stage->prompt),
                    text_at(args, "system_prompt"@),
                    Some("none"@),
                )
                &&& given_or_default(
                    stage->Call_purpose,
                    text_at(args, "purpose"@),
                    number_purpose(tool.allowed_numbers, to->0),
                )
            }
        }),
{
    lemma_actions_differ();
    lemma_members_differ();
    if text_at(args, "to"@) is Some {
        law_allowed_by_number_or_wildcard(tool.allowed_numbers, text_at(args, "to"@)->0);
    }
}

/// A call that was placed is registered as a call with its number, under the
/// identifier that was answered, and noted with what was said of it; one that was
/// not is reported, and leaves nothing behind.
pub proof fn law_placed_call_is_kept(
    tool: PhoneToolModel,
    to: Seq<char>,
    greeting: Seq<char>,
    prompt: Seq<char>,
    purpose: Option<Seq<char>>,
    data: JsonModel,
    error: Seq<char>,
    now: u64,
)
    ensures
        ({
            let stage = StageModel::Call { to, greeting, prompt, purpose };
            let step = tool.after(stage, Ok(data), now);
            let said = match purpose {
                Some(text) => text,
                None => "none"@,
            };
            let contact = step->Done_0.registration->0;
            let note = step->Done_0.memory->0;
            &&& step is Done
            &&& step->Done_0.result.success
            &&& step->Done_0.result.output == pretty(data)
            &&& step->Done_0.result.error is None
            &&& step->Done_0.registration is Some
            &&& contact.phone == to
            &&& contact.is_voice
            &&& contact.purpose == purpose
            &&& given_or_default(Some(contact.call_id), text_at(data, "id"@), Some("unknown"@))
            &&& step->Done_0.memory is Some
            &&& note.session_id == "agentphone_voice_"@ + to
            &&& note.key == "agentphone_out_"@ + to + "_"@ + decimal(now as nat)
            &&& note.content == "[outbound call placed] to: "@ + to + ", greeting: "@ + greeting
                + ", prompt: "@ + prompt + ", purpose: "@ + said
            &&& fails(tool.after(stage, Err(error), now), error)
        }),
{
}

/// An SMS begins with a request for the conversations of the agent that is given
/// or else configured, where the number is on the list and there is a message;
/// number, message and purpose are kept for what follows.
pub proof fn law_sms_looks_for_the_conversation(tool: PhoneToolModel, args: JsonModel)
    requires
        enabled(tool, args, "sms.send"@),
    ensures
        ({
            let step = tool.execution(args, None);
            let stage = step->Send_0;
            let to = text_at(args, "to"@);
            let message = text_at(args, "message"@);
            let agent = text_at(args, "agent_id"@);
            &&& to is None ==> fails(step, "sms.send requires 'to' parameter (E.164 phone number)"@)
            &&& to is Some && !on_the_list(tool, to->0) ==> fails(
                step,
                "Phone number "@ + to->0
                    + " is not in the allowed_numbers list. Add it to [agentphone].allowed_numbers in config.toml."@,
            )
            &&& to is Some && on_the_list(tool, to->0) && message is None ==> fails(
                step,
                "sms.send requires 'message' parameter"@,
            )
            &&& to is Some && on_the_list(tool, to->0) && message is Some && agent is None
                && tool.default_agent_id is None ==> fails(
                step,
                "sms.send requires agent_id (or configure default_agent_id)"@,
            )
            &&& to is Some && on_the_list(tool, to->0) && message is Some && (agent is Some
                || tool.default_agent_id is Some) ==> {
                &&& step is Send
                &&& agent is Some ==> goes_to(
                    tool,
                    step->Send_1,
                    Method::Get,
                    "/agents/"@ + agent->0 + "/conversations?limit=100"@,
                )
                &&& agent is None ==> goes_to(
                    tool,
                    step->Send_1,
                    Method::Get,
                    "/agents/"@ + tool.default_agent_id->0 + "/conversations?limit=100"@,
                )
                &&& step->Send_1.body is None
                &&& stage is SmsList
                &&& Some(stage->SmsList_to) == to
                &&& Some(stage->SmsList_message) == message
                &&& given_or_default(
                    stage->SmsList_purpose,
                    text_at(args, "purpose"@),
                    number_purpose(tool.allowed_numbers, to->0),
                )
            }
        }),
{
    lemma_actions_differ();
    if text_at(args, "to"@) is Some {
        law_allowed_by_number_or_wildcard(tool.allowed_numbers, text_at(args, "to"@)->0);
    }
}

/// The message of an SMS goes into the conversation that is found for its number;
/// where none is found the call fails and says so, and so it does where the
/// listing failed.
pub proof fn law_sms_goes_into_the_conversation(
    tool: PhoneToolModel,
    to: Seq<char>,
    message: Seq<char>,
    purpose: Option<Seq<char>>,
    listing: JsonModel,
    error: Seq<char>,
    now: u64,
)
    ensures
        ({
            let stage = StageModel::SmsList { to, message, purpose };
            let step = tool.after(stage, Ok(listing), now);
            let found = found_conversation(listing, to);
            let body = step->Send_1.body->0;
            &&& found is None ==> fails(
                step,
                "No existing conversation found with "@ + to
                    + ". An inbound message is required before sending SMS."@,
            )
            &&& found is Some ==> {
                &&& step is Send
                &&& step->Send_0 == StageModel::SmsReply {
                    to,
                    message,
                    purpose,
                    conversation_id: found->0,
                }
                &&& goes_to(tool, step->Send_1, Method::Patch, "/conversations/"@ + found->0)
                &&& step->Send_1.body is Some
                &&& field(body, "metadata"@) is Some
                &&& text_at(field(body, "metadata"@)->0, "_reply"@) == Some(message)
                &&& forall|key: Seq<char>| #[trigger]
                    field(body, key) is Some ==> key == "metadata"@
            }
            &&& fails(
                tool.after(stage, Err(error), now),
                "Failed to list conversations: "@ + error,
            )
        }),
{
    let found = found_conversation(listing, to);
    if found is Some {
        assert("https://api.agentphone.to/v1"@ + "/conversations/"@ + found->0
            =~= "https://api.agentphone.to/v1"@ + ("/conversations/"@ + found->0));
    }
}

/// An SMS that was sent is registered with its number and conversation, not as a
/// call, and noted with its message; one that was not is reported, and leaves
/// nothing behind.
pub proof fn law_sent_sms_is_kept(
    tool: PhoneToolModel,
    to: Seq<char>,
    message: Seq<char>,
    purpose: Option<Seq<char>>,
    conversation_id: Seq<char>,
    data: JsonModel,
    error: Seq<char>,
    now: u64,
)
    ensures
        ({
            let stage = StageModel::SmsReply { to, message, purpose, conversation_id };
            let step = tool.after(stage, Ok(data), now);
            let said = match purpose {
                Some(text) => text,
                None => "none"@,
            };
            let contact = step->Done_0.registration->0;
            let note = step->Done_0.memory->0;
            &&& step is Done
            &&& step->Done_0.result.success
            &&& step->Done_0.result.output == pretty(data)
            &&& step->Done_0.result.error is None
            &&& step->Done_0.registration is Some
            &&& contact.phone == to
            &&& !contact.is_voice
            &&& contact.purpose == purpose
            &&& contact.call_id == conversation_id
            &&& step->Done_0.memory is Some
            &&& note.session_id == "agentphone_sms_"@ + to
            &&& note.key == "agentphone_out_"@ + to + "_"@ + decimal(now as nat)
            &&& note.content == "[outbound SMS sent] to: "@ + to + ", message: "@ + message
                + ", purpose: "@ + said
            &&& fails(tool.after(stage, Err(error), now), error)
        }),
{
}

/// A contact is tracked under its number where the tool tracks sessions, and
/// nothing else changes; where it tracks none, nothing changes at all.
pub proof fn law_session_is_tracked(
    tool: PhoneToolModel,
    phone: Seq<char>,
    call_id: Seq<char>,
    purpose: Option<Seq<char>>,
    is_voice: bool,
    now: u64,
    other: Seq<char>,
)
    ensures
        ({
            let after = tool.with_session(phone, call_id, purpose, is_voice, now);
            let session = after.sessions->0[phone];
            &&& tool.sessions is None ==> after == tool
            &&& tool.sessions is Some ==> {
                &&& after.sessions is Some
                &&& after.sessions->0.contains_key(phone)
                &&& session.call_id == call_id
                &&& session.purpose == purpose
                &&& session.started_at == now
                &&& is_voice ==> session.ttl_secs == 3600
                &&& !is_voice ==> session.ttl_secs == 1800
                &&& other != phone ==> {
                    &&& after.sessions->0.contains_key(other) <==> tool.sessions->0.contains_key(
                        other,
                    )
                    &&& after.sessions->0[other] == tool.sessions->0[other]
                }
            }
            &&& (PhoneToolModel { sessions: tool.sessions, ..after }) == tool
        }),
{
}

/// A step that ends with a contact has the tool track it, and any other step
/// changes nothing.
pub proof fn law_only_contacts_are_tracked(tool: PhoneToolModel, step: PhoneStepModel, now: u64)
    ensures
        step is Send || step->Done_0.registration is None ==> tool.registered(step, now) == tool,
        step is Done && step->Done_0.registration is Some ==> {
            let contact = step->Done_0.registration->0;
            tool.registered(step, now) == tool.with_session(
                contact.phone,
                contact.call_id,
                contact.purpose,
                contact.is_voice,
                now,
            )
        },
{
}

/// Every reply can be reported but an error whose body would be cut, after 500
/// bytes, inside a character.
pub proof fn law_when_replies_can_be_reported(reply: ReplyModel, error: Seq<char>)
    ensures
        ({
            let bytes = encode_utf8(reply.body);
            &&& reportable(Err(error))
            &&& reportable(Ok(reply)) <==> reply.code / 100 == 2 || bytes.len() <= 500 || !(0x80
                <= bytes[500] <= 0xbf)
        }),
{
    law_where_a_text_can_be_cut(reply.body, 500);
}

/// What a lookup is answered is printed, and its error is reported.
pub proof fn law_answer_is_printed(
    tool: PhoneToolModel,
    data: JsonModel,
    error: Seq<char>,
    now: u64,
)
    ensures
        ({
            let step = tool.after(StageModel::Plain, Ok(data), now);
            &&& step is Done
            &&& step->Done_0.result.success
            &&& step->Done_0.result.output == pretty(data)
            &&& step->Done_0.result.error is None
            &&& step->Done_0.registration is None
            &&& step->Done_0.memory is None
            &&& fails(tool.after(StageModel::Plain, Err(error), now), error)
        }),
{
}

/// A reply with a success code answers what its body reads as, and an empty one
/// that the status is ok; any other reply is an error with its status and the
/// beginning of its body, and without a reply its error is answered.
pub proof fn law_reply_is_answered(
    reply: ReplyModel,
    body: Result<JsonModel, Seq<char>>,
    error: Seq<char>,
)
    ensures
        reply.code / 100 != 2 ==> answer(Ok(reply), body) == Err::<JsonModel, _>(
            "AgentPhone API error "@ + reply.status + ": "@ + cut(reply.body, 500, "…"@),
        ),
        reply.code / 100 == 2 && reply.body.len() > 0 ==> answer(Ok(reply), body) == body,
        reply.code / 100 == 2 && reply.body.len() == 0 ==> {
            &&& answer(Ok(reply), body) is Ok
            &&& text_at(answer(Ok(reply), body)->Ok_0, "status"@) == Some("ok"@)
            &&& forall|key: Seq<char>| #[trigger]
                field(answer(Ok(reply), body)->Ok_0, key) is Some ==> key == "status"@
        },
        answer(Err(error), body) == Err::<JsonModel, _>(error),
{
}

proof fn lemma_parameters_differ()
    ensures
        mark("action"@) == 7841567068543046,
        mark("agent_id"@) == 7414940409075784,
        mark("begin_message"@) == 8124135076747405,
        mark("call_id"@) == 7414947925137607,
        mark("conversation_id"@) == 7771196134807759,
        mark("description"@) == 7420710739400971,
        mark("enum"@) == 7702472401180996,
        mark("from_number_id"@) == 8049901931551118,
        mark("initial_greeting"@) == 8190641579874896,
        mark("limit"@) == 7417693550107397,
        mark("maximum"@) == 8263234068568903,
        mark("message"@) == 7274767713098567,
        mark("message_limit"@) == 7418509593762637,
        mark("metadata"@) == 8189562444127048,
        mark("minimum"@) == 8263223331150663,
        mark("name"@) == 7137309432175492,
        mark("properties"@) == 7420724719164426,
        mark("purpose"@) == 8123039860136967,
        mark("required"@) == 7138700997319816,
        mark("system_prompt"@) == 7842375621139661,
        mark("to"@) == 7841567072836866,
        mark("type"@) == 7138159835749636,
        mark("voice"@) == 6993838197071237,
        mark("voice_mode"@) == 7840999021206922,
{
    reveal_strlit("action");
    reveal_strlit("agent_id");
    reveal_strlit("begin_message");
    reveal_strlit("call_id");
    reveal_strlit("conversation_id");
    reveal_strlit("description");
    reveal_strlit("enum");
    reveal_strlit("from_number_id");
    reveal_strlit("initial_greeting");
    reveal_strlit("limit");
    reveal_strlit("maximum");
    reveal_strlit("message");
    reveal_strlit("message_limit");
    reveal_strlit("metadata");
    reveal_strlit("minimum");
    reveal_strlit("name");
    reveal_strlit("properties");
    reveal_strlit("purpose");
    reveal_strlit("required");
    reveal_strlit("system_prompt");
    reveal_strlit("to");
    reveal_strlit("type");
    reveal_strlit("voice");
    reveal_strlit("voice_mode");
}

/// Whether a schema offers a parameter of a type, and says what it is.
pub open spec fn offers(
    properties: JsonModel,
    key: Seq<char>,
    kind: Seq<char>,
    description: Seq<char>,
) -> bool {
    &&& field(properties, key) is Some
    &&& text_at(field(properties, key)->0, "type"@) == Some(kind)
    &&& text_at(field(properties, key)->0, "description"@) == Some(description)
}

/// The schema is an object that requires the action, and offers each parameter
/// that an action reads with its type, its choices and its range, and no other.
pub proof fn law_schema_offers_every_parameter()
    ensures
        ({
            let schema = schema_model(phone_properties());
            let properties = field(schema, "properties"@)->0;
            &&& text_at(schema, "type"@) == Some("object"@)
            &&& field(schema, "required"@) == Some(
                JsonModel::Array(seq![JsonModel::Text("action"@)]),
            )
            &&& field(schema, "properties"@) is Some
            &&& offers(
                properties,
                "action"@,
                "string"@,
                "The AgentPhone API action to perform"@,
            )
            &&& offers(
                properties,
                "agent_id"@,
                "string"@,
                "Agent ID. Defaults to configured default_agent_id if omitted."@,
            )
            &&& offers(
                properties,
                "call_id"@,
                "string"@,
                "Call ID (for calls.get)"@,
            )
            &&& offers(
                properties,
                "conversation_id"@,
                "string"@,
                "Conversation ID (for conversations.get/update)"@,
            )
            &&& offers(
                properties,
                "to"@,
                "string"@,
                "Destination phone number in E.164 format (for sms.send, calls.create)"@,
            )
            &&& offers(
                properties,
                "message"@,
                "string"@,
                "SMS message text (for sms.send)"@,
            )
            &&& offers(
                properties,
                "from_number_id"@,
                "string"@,
                "Phone number ID to call/send from (for calls.create, sms.send)"@,
            )
            &&& offers(
                properties,
                "name"@,
                "string"@,
                "Agent name (for agents.create/update)"@,
            )
            &&& offers(
                properties,
                "description"@,
                "string"@,
                "Agent description (for agents.create/update)"@,
            )
            &&& offers(
                properties,
                "voice"@,
                "string"@,
                "TTS voice (e.g. \"Polly.Amy\") for calls.create or agents.create/update"@,
            )
            &&& offers(
                properties,
                "voice_mode"@,
                "string"@,
                "Voice mode for agents.create/update"@,
            )
            &&& offers(
                properties,
                "initial_greeting"@,
                "string"@,
                "Greeting message for outbound calls (calls.create)"@,
            )
            &&& offers(
                properties,
                "system_prompt"@,
                "string"@,
                "System prompt for hosted voice mode (agents.update, calls.create)"@,
            )
            &&& offers(
                properties,
                "begin_message"@,
                "string"@,
                "Begin message for inbound calls (agents.create/update)"@,
            )
            &&& offers(
                properties,
                "purpose"@,
                "string"@,
                "Purpose of this outbound contact, e.g. 'schedule dentist appointment'. Used to scope information disclosure during the conversation. (for calls.create, sms.send)"@,
            )
            &&& offers(
                properties,
                "metadata"@,
                "object"@,
                "Metadata object (for conversations.update)"@,
            )
            &&& offers(
                properties,
                "message_limit"@,
                "integer"@,
                "Number of messages to return (for conversations.get, default: 50)"@,
            )
            &&& offers(
                properties,
                "limit"@,
                "integer"@,
                "Number of results to return (default: 20)"@,
            )
            &&& field(field(properties, "message_limit"@)->0, "minimum"@) == Some(
                JsonModel::Integer(1),
            ) && field(field(properties, "message_limit"@)->0, "maximum"@) == Some(JsonModel::Integer(100))
            &&& field(field(properties, "limit"@)->0, "minimum"@) == Some(
                JsonModel::Integer(1),
            ) && field(field(properties, "limit"@)->0, "maximum"@) == Some(JsonModel::Integer(100))
            &&& field(field(properties, "action"@)->0, "enum"@) == Some(
                JsonModel::Array(
                    seq![
                        JsonModel::Text("agents.list"@),
                        JsonModel::Text("agents.get"@),
                        JsonModel::Text("agents.create"@),
                        JsonModel::Text("agents.update"@),
                        JsonModel::Text("numbers.list"@),
                        JsonModel::Text("calls.list"@),
                        JsonModel::Text("calls.get"@),
                        JsonModel::Text("calls.create"@),
                        JsonModel::Text("sms.send"@),
                        JsonModel::Text("conversations.list"@),
                        JsonModel::Text("conversations.get"@),
                        JsonModel::Text("conversations.update"@),
                        JsonModel::Text("usage.get"@),
                    ],
                ),
            )
            &&& field(field(properties, "voice_mode"@)->0, "enum"@) == Some(
                JsonModel::Array(
                    seq![
                        JsonModel::Text("webhook"@),
                        JsonModel::Text("hosted"@),
                    ],
                ),
            )
            &&& forall|key: Seq<char>| #[trigger]
                field(properties, key) is Some ==> {
                    ||| key == "action"@
                    ||| key == "agent_id"@
                    ||| key == "call_id"@
                    ||| key == "conversation_id"@
                    ||| key == "to"@
                    ||| key == "message"@
                    ||| key == "from_number_id"@
                    ||| key == "name"@
                    ||| key == "description"@
                    ||| key == "voice"@
                    ||| key == "voice_mode"@
                    ||| key == "initial_greeting"@
                    ||| key == "system_prompt"@
                    ||| key == "begin_message"@
                    ||| key == "purpose"@
                    ||| key == "metadata"@
                    ||| key == "message_limit"@
                    ||| key == "limit"@
                }
        }),
{
    lemma_parameters_differ();
    let schema = schema_model(phone_properties());
    let properties = field(schema, "properties"@)->0;
    assert(field(schema, "required"@)->0->Array_0 =~= seq![JsonModel::Text("action"@)]);
    assert(field(field(properties, "action"@)->0, "enum"@)->0->Array_0 =~= seq![
        JsonModel::Text("agents.list"@),
        JsonModel::Text("agents.get"@),
        JsonModel::Text("agents.create"@),
        JsonModel::Text("agents.update"@),
        JsonModel::Text("numbers.list"@),
        JsonModel::Text("calls.list"@),
        JsonModel::Text("calls.get"@),
        JsonModel::Text("calls.create"@),
        JsonModel::Text("sms.send"@),
        JsonModel::Text("conversations.list"@),
        JsonModel::Text("conversations.get"@),
        JsonModel::Text("conversations.update"@),
        JsonModel::Text("usage.get"@),
    ]);
    assert(field(field(properties, "voice_mode"@)->0, "enum"@)->0->Array_0 =~= seq![
        JsonModel::Text("webhook"@),
        JsonModel::Text("hosted"@),
    ]);
}

} // verus!
