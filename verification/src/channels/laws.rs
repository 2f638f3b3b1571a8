//! What holds of the AgentPhone channel as a whole: what the agent sees of a
//! webhook, which webhooks are believed, and which requests go out.
use vstd::prelude::*;
use vstd::utf8::{decode_utf8, encode_utf8, is_ascii_chars_encode_utf8};
use crate::channels::agentphone::{
    conversation_with, event_to, first_conversation, found_conversation, readable, send_result,
    send_step, signature_accepted, webhook_messages, ChannelModel, SendStepModel,
};
use crate::channels::webhook::{
    e164, enriched, entry_body, entry_time, history_line, history_lines, history_text, raw_content,
    state_text,
};
use crate::clock::{rfc3339_seconds, signed_bits};
use crate::config::{law_allowed_by_number_or_wildcard, PhoneNumberEntry};
use crate::http::{Method, ReplyModel, RequestModel};
use crate::json::{field, is_positive_number, text_at, JsonModel};
use crate::json_text::{printed, two_decimals_text};
use crate::signature::{hex_bytes, hmac_sha256};
use crate::text::{
    after_prefix, can_cut, has_prefix, joined, law_joined_lists, law_prefix_and_rest,
    law_where_a_text_can_be_cut, parsed_i64, signed_decimal,
};
use crate::tools::agentphone_tool::RegistrationModel;

verus! {

/// A number by which the texts below are told apart.
spec fn mark(s: Seq<char>) -> int {
    let n: int = s.len() as int;
    n + 64 * (s[0] as int) + 16384 * (s[n / 2] as int) + 4194304 * (s[n - 1] as int) + 1073741824 * (
    s[n / 3] as int) + 274877906944 * (s[(2 * n) / 3] as int)
        + 70368744177664 * (s[(3 * n) / 4] as int)
}

proof fn lemma_texts_differ()
    ensures
        mark("+"@) == 3037722101598913,
        mark("_reply"@) == 7629620142413766,
        mark("beginMessage"@) == 6857497681418380,
        mark("body"@) == 8542225530689668,
        mark("callId"@) == 5157100797499590,
        mark("channel"@) == 7137584339458247,
        mark("confidence"@) == 7768434475079882,
        mark("conversationId"@) == 7839901652900046,
        mark("conversationState"@) == 5870965168609489,
        mark("data"@) == 6857758584150276,
        mark("direction"@) == 7417689229809929,
        mark("event"@) == 7770925619042629,
        mark("from"@) == 7700827428608388,
        mark("id"@) == 7064475372427842,
        mark("inbound"@) == 7772828222609991,
        mark("message"@) == 7274767713098567,
        mark("metadata"@) == 8189562444127048,
        mark("participant"@) == 6856679553031179,
        mark("receivedAt"@) == 7064746022771850,
        mark("recentHistory"@) == 8194503904205965,
        mark("sms"@) == 8124134061726915,
        mark("timestamp"@) == 6852540261784841,
        mark("to"@) == 7841567072836866,
        mark("transcript"@) == 7420172819815690,
        mark("voice"@) == 6993838197071237,
        mark("voiceMode"@) == 7841548777119113,
        mark("webhook"@) == 7841547728592327,
{
    reveal_strlit("+");
    reveal_strlit("_reply");
    reveal_strlit("beginMessage");
    reveal_strlit("body");
    reveal_strlit("callId");
    reveal_strlit("channel");
    reveal_strlit("confidence");
    reveal_strlit("conversationId");
    reveal_strlit("conversationState");
    reveal_strlit("data");
    reveal_strlit("direction");
    reveal_strlit("event");
    reveal_strlit("from");
    reveal_strlit("id");
    reveal_strlit("inbound");
    reveal_strlit("message");
    reveal_strlit("metadata");
    reveal_strlit("participant");
    reveal_strlit("receivedAt");
    reveal_strlit("recentHistory");
    reveal_strlit("sms");
    reveal_strlit("timestamp");
    reveal_strlit("to");
    reveal_strlit("transcript");
    reveal_strlit("voice");
    reveal_strlit("voiceMode");
    reveal_strlit("webhook");
}

/// A phone number as it is written with its plus sign.
pub open spec fn plus(number: Seq<char>) -> Seq<char> {
    if number.len() > 0 && number[0] == '+' {
        number
    } else {
        seq!['+'] + number
    }
}

proof fn lemma_plus(number: Seq<char>)
    ensures
        e164(number) == plus(number),
{
    reveal_strlit("+");
    assert("+"@ =~= seq!['+']);
    if has_prefix(number, "+"@) {
        assert(number.take(1)[0] == '+');
    }
    if number.len() > 0 && number[0] == '+' {
        assert(number.take(1) =~= "+"@);
    }
}

/// An event gives the agent a message exactly when it is a message from someone
/// on the list, by their number with its plus sign or by the wildcard, and it is
/// an SMS with a text or a call with a transcript. It never gives more than one.
pub proof fn law_which_events_are_seen(
    allowed: Seq<PhoneNumberEntry>,
    agent_number: Option<Seq<char>>,
    payload: JsonModel,
    now: u64,
    id: Seq<char>,
)
    ensures
        webhook_messages(allowed, agent_number, payload, now, id).len() <= 1,
        webhook_messages(allowed, agent_number, payload, now, id).len() == 1 <==> {
            let data = field(payload, "data"@)->0;
            let from = text_at(data, "from"@);
            &&& text_at(payload, "event"@) == Some("agent.message"@)
            &&& field(payload, "data"@) is Some
            &&& from is Some && from->0.len() > 0
            &&& exists|i: int|
                0 <= i < allowed.len() && ((#[trigger] allowed[i]).number_text() == plus(from->0)
                    || allowed[i].number_text() == "*"@)
            &&& {
                ||| text_at(payload, "channel"@) == Some("sms"@) && text_at(data, "message"@) is Some
                    && text_at(data, "message"@)->0.len() > 0
                ||| text_at(payload, "channel"@) == Some("voice"@) && text_at(
                    data,
                    "transcript"@,
                ) is Some && text_at(data, "transcript"@)->0.len() > 0
            }
        },
{
    reveal_strlit("agent.message");
    reveal_strlit("");
    reveal_strlit("sms");
    reveal_strlit("voice");
    let data = field(payload, "data"@)->0;
    let from = text_at(data, "from"@);
    if from is Some {
        lemma_plus(from->0);
        law_allowed_by_number_or_wildcard(allowed, plus(from->0));
    }
}

/// A message goes back to whom the agent talks with: the sender, or the receiver
/// where the sender is the agent itself and a receiver is named. It is tagged by
/// the kind of its channel, and has the time and the thread of the event.
pub proof fn law_message_is_addressed(
    allowed: Seq<PhoneNumberEntry>,
    agent_number: Option<Seq<char>>,
    payload: JsonModel,
    now: u64,
    id: Seq<char>,
)
    requires
        webhook_messages(allowed, agent_number, payload, now, id).len() == 1,
    ensures
        ({
            let message = webhook_messages(allowed, agent_number, payload, now, id)[0];
            let data = field(payload, "data"@)->0;
            let from = plus(text_at(data, "from"@)->0);
            let to = text_at(data, "to"@);
            let own = agent_number == Some(from);
            &&& message.id == id
            &&& message.reply_target == message.sender
            &&& own && to is Some && to->0.len() > 0 && to->0 != "+"@ ==> message.sender == plus(to->0)
            &&& !own || to is None || to->0.len() == 0 || to->0 == "+"@ ==> message.sender == from
            &&& message.channel == "agentphone_"@ + text_at(payload, "channel"@)->0
            &&& text_at(payload, "channel"@) == Some("sms"@) || text_at(payload, "channel"@) == Some(
                "voice"@,
            )
            &&& match text_at(payload, "timestamp"@) {
                Some(text) => match rfc3339_seconds(text) {
                    Some(seconds) => message.timestamp == if seconds >= 0 {
                        seconds as int
                    } else {
                        seconds + 0x1_0000_0000_0000_0000
                    },
                    None => message.timestamp == now,
                },
                None => message.timestamp == now,
            }
            &&& text_at(data, "conversationId"@) is Some ==> message.thread_ts == text_at(
                data,
                "conversationId"@,
            )
            &&& field(data, "conversationId"@) is None ==> message.thread_ts == text_at(
                data,
                "callId"@,
            )
            &&& field(data, "conversationId"@) is Some && text_at(data, "conversationId"@) is None
                ==> message.thread_ts is None
            &&& message.interruption_scope_id is None
            &&& message.attachments.len() == 0
        }),
{
    law_which_events_are_seen(allowed, agent_number, payload, now, id);
    reveal_strlit("");
    reveal_strlit("+");
    let data = field(payload, "data"@)->0;
    lemma_plus(text_at(data, "from"@)->0);
    let to = event_to(data);
    lemma_plus(to);
    assert("+"@ =~= seq!['+']);
    if to.len() == 0 {
        assert(seq!['+'] + to =~= "+"@);
    } else if to[0] != '+' {
        assert(plus(to).len() == to.len() + 1);
    }
}

/// Who wrote an entry of a history, when, and what, as one line.
pub open spec fn told(entry: JsonModel, counterparty: Seq<char>) -> Seq<char> {
    let time = match text_at(entry, "receivedAt"@) {
        Some(time) => time,
        None => ""@,
    };
    let bytes = encode_utf8(time);
    let minute = if bytes.len() <= 16 {
        time
    } else {
        decode_utf8(bytes.subrange(0, 16))
    };
    let speaker = if text_at(entry, "direction"@) == Some("inbound"@) {
        counterparty
    } else {
        "Agent"@
    };
    "["@ + minute + "] "@ + speaker + ": "@ + text_at(entry, "body"@)->0
}

/// Whether an entry of a history says something.
pub open spec fn says(entry: JsonModel) -> bool {
    text_at(entry, "body"@) is Some && text_at(entry, "body"@)->0.len() > 0
}

/// Whether a list of positions holds those of the entries that say something, in
/// order.
pub open spec fn picks_what_is_said(kept: Seq<int>, entries: Seq<JsonModel>) -> bool {
    &&& forall|k: int| 0 <= k < kept.len() ==> 0 <= #[trigger] kept[k] < entries.len()
    &&& forall|k: int| 0 <= k < kept.len() ==> says(entries[#[trigger] kept[k]])
    &&& forall|k: int, l: int| 0 <= k < l < kept.len() ==> #[trigger] kept[k] < #[trigger] kept[l]
    &&& forall|i: int| 0 <= i < entries.len() && says(#[trigger] entries[i]) ==> kept.contains(i)
}

proof fn lemma_kept(entries: Seq<JsonModel>, counterparty: Seq<char>) -> (kept: Seq<int>)
    ensures
        picks_what_is_said(kept, entries),
        history_lines(entries, counterparty) == Seq::new(
            kept.len(),
            |k: int| told(entries[kept[k]], counterparty),
        ),
    decreases entries.len(),
{
    reveal_strlit("");
    if entries.len() == 0 {
        let kept = Seq::<int>::empty();
        assert(history_lines(entries, counterparty) =~= Seq::new(
            kept.len(),
            |k: int| told(entries[kept[k]], counterparty),
        ));
        kept
    } else {
        let shorter = entries.drop_last();
        let n: int = shorter.len() as int;
        let before = lemma_kept(shorter, counterparty);
        let entry = entries[n];
        assert(entries.last() == entry);
        reveal_strlit("unknown");
        reveal_strlit("inbound");
        assert("unknown"@[0] != "inbound"@[0]);
        assert(entry_body(entry).len() > 0 <==> says(entry));
        assert forall|k: int| 0 <= k < before.len() implies says(entries[#[trigger] before[k]]) by {
            assert(shorter[before[k]] == entries[before[k]]);
        }
        let kept = if says(entry) {
            before.push(n)
        } else {
            before
        };
        assert forall|i: int| 0 <= i < entries.len() && says(#[trigger] entries[i]) implies kept.contains(
            i,
        ) by {
            if i < n {
                assert(shorter[i] == entries[i]);
                assert(before.contains(i));
                let k = choose|k: int| 0 <= k < before.len() && before[k] == i;
                assert(kept[k] == i);
            } else {
                assert(kept[before.len() as int] == n);
            }
        }
        if says(entry) {
            assert(history_line(entry, counterparty) == told(entry, counterparty));
        }
        assert forall|k: int| 0 <= k < before.len() implies #[trigger] shorter[before[k]]
            == entries[before[k]] by {}
        assert(history_lines(entries, counterparty) =~= Seq::new(
            kept.len(),
            |k: int| told(entries[kept[k]], counterparty),
        ));
        kept
    }
}

/// The entries of a payload's history: none where there is no list of them.
pub open spec fn history_entries(payload: JsonModel) -> Seq<JsonModel> {
    match field(payload, "recentHistory"@) {
        Some(JsonModel::Array(items)) => items,
        _ => Seq::empty(),
    }
}

/// What the agent reads of a message is the same for SMS and for calls: where the
/// payload has a history, its heading with the kind of channel, a line for each
/// entry that says something, in their order, and the heading of the message;
/// then the state of the conversation, where there is one; and last what was
/// said, which for a call is marked as such, with how sure the transcript is.
/// What is given back are the positions of the entries that are told.
pub proof fn law_message_tells_history_state_and_words(
    allowed: Seq<PhoneNumberEntry>,
    agent_number: Option<Seq<char>>,
    payload: JsonModel,
    now: u64,
    id: Seq<char>,
) -> (kept: Seq<int>)
    requires
        webhook_messages(allowed, agent_number, payload, now, id).len() == 1,
    ensures
        ({
            let message = webhook_messages(allowed, agent_number, payload, now, id)[0];
            let data = field(payload, "data"@)->0;
            let channel = text_at(payload, "channel"@)->0;
            let entries = history_entries(payload);
            let heading = "[Conversation history with "@ + message.sender + " via "@ + channel
                + "]"@;
            let lines = Seq::new(kept.len(), |k: int| told(entries[kept[k]], message.sender));
            let history = if entries.len() == 0 {
                Seq::empty()
            } else {
                seq![heading] + lines + seq!["[Current message]"@]
            };
            let state = match field(payload, "conversationState"@) {
                Some(state) => if state == JsonModel::Null {
                    Seq::empty()
                } else {
                    seq!["[conversation state: "@ + printed(state) + "] "@]
                },
                None => Seq::empty(),
            };
            let number = match field(data, "confidence"@) {
                Some(JsonModel::Integer(n)) => Some(signed_decimal(n)),
                Some(JsonModel::Float(t)) => Some(t),
                _ => None,
            };
            let said = if channel == "sms"@ {
                text_at(data, "message"@)->0
            } else if number is Some && is_positive_number(number->0) {
                "[voice call, confidence: "@ + two_decimals_text(number->0) + "] "@ + text_at(
                    data,
                    "transcript"@,
                )->0
            } else {
                "[voice call] "@ + text_at(data, "transcript"@)->0
            };
            &&& picks_what_is_said(kept, entries)
            &&& message.content == joined(history + state + seq![said], "\n"@)
            &&& entries.len() > 0 ==> message.content.len() > heading.len()
                && message.content.take(heading.len() as int) == heading
            &&& message.content.len() >= said.len() && message.content.skip(
                message.content.len() - said.len(),
            ) == said
        }),
{
    law_which_events_are_seen(allowed, agent_number, payload, now, id);
    lemma_texts_differ();
    reveal_strlit("\n");
    reveal_strlit("");
    let message = webhook_messages(allowed, agent_number, payload, now, id)[0];
    let data = field(payload, "data"@)->0;
    let channel = text_at(payload, "channel"@)->0;
    let entries = history_entries(payload);
    let kept = lemma_kept(entries, message.sender);
    let lines = Seq::new(kept.len(), |k: int| told(entries[kept[k]], message.sender));
    let heading = "[Conversation history with "@ + message.sender + " via "@ + channel + "]"@;
    let said = raw_content(channel, data)->0;
    let state = match state_text(payload) {
        Some(text) => seq![text],
        None => Seq::empty(),
    };
    let rest = state + seq![said];
    let sep = "\n"@;
    let content = message.content;
    assert(content == enriched(payload, channel, message.sender, said));
    assert(rest.last() == said);
    law_joined_lists(state, seq![said], sep);
    law_joined_lists(seq![said], state, sep);
    if entries.len() > 0 {
        let all = seq![heading] + lines + seq!["[Current message]"@];
        let text = joined(all, sep);
        assert(history_text(payload, channel, message.sender) == Some(text));
        assert(seq![text] + state + seq![said] =~= seq![text] + rest);
        law_joined_lists(seq![text], rest, sep);
        law_joined_lists(all, rest, sep);
        assert(all + state + seq![said] =~= all + rest);
        let tail = lines + seq!["[Current message]"@] + rest;
        assert(all + rest =~= seq![heading] + tail);
        law_joined_lists(seq![heading], tail, sep);
        assert(content == joined(seq![heading] + tail, sep));
        assert(content.take(heading.len() as int) =~= heading);
    } else {
        assert(history_text(payload, channel, message.sender) is None);
        assert(Seq::<Seq<char>>::empty() + state + seq![said] =~= rest);
    }
    if state.len() == 0 {
        assert(rest =~= seq![said]);
    }
    assert(joined(rest, sep).skip(joined(rest, sep).len() - said.len()) =~= said);
    assert(content.skip(content.len() - said.len()) =~= said);
    kept
}

/// The messages of an event can be made unless the event is seen and the time of an
/// entry that is told would be cut, after sixteen bytes, inside a character.
pub proof fn law_when_events_are_readable(
    allowed: Seq<PhoneNumberEntry>,
    agent_number: Option<Seq<char>>,
    payload: JsonModel,
    now: u64,
    id: Seq<char>,
)
    ensures
        readable(allowed, payload) <==> webhook_messages(
            allowed,
            agent_number,
            payload,
            now,
            id,
        ).len() == 0 || forall|i: int|
            0 <= i < history_entries(payload).len() && says(#[trigger] history_entries(payload)[i])
                && text_at(history_entries(payload)[i], "receivedAt"@) is Some ==> {
                let bytes = encode_utf8(text_at(history_entries(payload)[i], "receivedAt"@)->0);
                bytes.len() <= 16 || !(0x80 <= bytes[16] <= 0xbf)
            },
{
    reveal_strlit("");
    is_ascii_chars_encode_utf8(""@);
    let entries = history_entries(payload);
    assert forall|i: int| 0 <= i < entries.len() implies {
        let entry = #[trigger] entries[i];
        &&& entry_body(entry).len() > 0 <==> says(entry)
        &&& can_cut(entry_time(entry), 16) <==> text_at(entry, "receivedAt"@) is None || {
            let bytes = encode_utf8(text_at(entry, "receivedAt"@)->0);
            bytes.len() <= 16 || !(0x80 <= bytes[16] <= 0xbf)
        }
    } by {
        law_where_a_text_can_be_cut(entry_time(entries[i]), 16);
    }
}

/// A contact that the tool made is kept by the channel under its number, as a call
/// for an hour and as an SMS for half an hour, and nothing else changes.
pub proof fn law_contact_is_kept(
    channel: ChannelModel,
    contact: RegistrationModel,
    now: u64,
    other: Seq<char>,
)
    ensures
        ({
            let after = channel.with_contact(contact, now);
            let session = after.sessions[contact.phone];
            &&& after.sessions.contains_key(contact.phone)
            &&& session.call_id == contact.call_id
            &&& session.purpose == contact.purpose
            &&& session.started_at == now
            &&& contact.is_voice ==> session.ttl_secs == 3600
            &&& !contact.is_voice ==> session.ttl_secs == 1800
            &&& other != contact.phone ==> {
                &&& after.sessions.contains_key(other) <==> channel.sessions.contains_key(other)
                &&& after.sessions[other] == channel.sessions[other]
            }
            &&& (ChannelModel { sessions: channel.sessions, ..after }) == channel
        }),
{
}

/// A new channel has its key, its secret and its list, and nothing else yet.
pub proof fn law_new_channel_is_bare(
    api_key: Seq<char>,
    webhook_secret: Seq<char>,
    allowed: Seq<PhoneNumberEntry>,
    phone: Seq<char>,
)
    ensures
        ({
            let channel = ChannelModel::new(api_key, webhook_secret, allowed);
            &&& channel.api_key == api_key
            &&& channel.webhook_secret == webhook_secret
            &&& channel.allowed_numbers == allowed
            &&& channel.agent_id is None && channel.agent_phone_number is None
            &&& channel.voice is None && channel.begin_message is None
            &&& channel.model is None && channel.proxy_url is None
            &&& channel.conversation_prompt.len() == 0
            &&& !channel.sessions.contains_key(phone)
        }),
{
}

/// With a secret a webhook is accepted exactly when its signature is `sha256=`
/// and, in hexadecimal, the tag of the time stamp, a dot and the body, and its
/// time stamp, where it is a number, is at most 300 seconds from the clock.
pub proof fn law_signature_covers_timestamp_and_body(
    secret: Seq<char>,
    body: Seq<u8>,
    signature: Seq<char>,
    timestamp: Seq<char>,
    now: u64,
    hex: Seq<char>,
)
    requires
        secret.len() > 0,
        signature == "sha256="@ + hex,
    ensures
        signature_accepted(secret, body, Some(signature), Some(timestamp), now) <==> {
            &&& hex_bytes(hex) == Some(
                hmac_sha256(encode_utf8(secret), encode_utf8(timestamp) + seq![0x2eu8] + body),
            )
            &&& parsed_i64(timestamp) is None || (signed_bits(now) - parsed_i64(timestamp)->0 <= 300
                && parsed_i64(timestamp)->0 - signed_bits(now) <= 300)
        },
        signature_accepted(secret, body, Some(signature), None, now) <==> hex_bytes(hex) == Some(
            hmac_sha256(encode_utf8(secret), body),
        ),
{
    law_prefix_and_rest(signature, "sha256="@, hex);
    reveal_strlit(".");
    is_ascii_chars_encode_utf8("."@);
    assert(encode_utf8("."@) =~= seq![0x2eu8]);
}

/// With a secret a signature that does not begin with `sha256=` is rejected.
pub proof fn law_other_signatures_are_rejected(
    secret: Seq<char>,
    body: Seq<u8>,
    signature: Seq<char>,
    timestamp: Option<Seq<char>>,
    now: u64,
)
    requires
        secret.len() > 0,
        forall|rest: Seq<char>| signature != #[trigger] ("sha256="@ + rest),
    ensures
        !signature_accepted(secret, body, Some(signature), timestamp, now),
{
    if has_prefix(signature, "sha256="@) {
        law_prefix_and_rest(signature, "sha256="@, after_prefix(signature, "sha256="@)->0);
    }
}

/// Whether a conversation is listed for a number: its participant is the number,
/// or the number but for its plus sign, or is empty where the number has no plus
/// sign.
pub open spec fn listed_for(item: JsonModel, number: Seq<char>) -> bool {
    let participant = text_at(item, "participant"@);
    participant is Some && {
        ||| participant->0 == number
        ||| number == seq!['+'] + participant->0
        ||| participant->0.len() == 0 && !(number.len() > 0 && number[0] == '+')
    }
}

proof fn lemma_listed(item: JsonModel, number: Seq<char>)
    ensures
        conversation_with(item, number) == if listed_for(item, number) {
            text_at(item, "id"@)
        } else {
            None
        },
{
    reveal_strlit("");
    reveal_strlit("+");
    assert("+"@ =~= seq!['+']);
    if has_prefix(number, "+"@) {
        assert(number.take(1)[0] == '+');
    }
    if number.len() > 0 && number[0] == '+' {
        assert(number.take(1) =~= "+"@);
    }
    let participant = text_at(item, "participant"@);
    if participant is Some {
        law_prefix_and_rest(number, "+"@, participant->0);
        if participant->0.len() == 0 {
            assert(participant->0 =~= ""@);
        }
    }
}

/// The conversation with a number is the first one that is listed for it and has
/// an identifier.
pub proof fn law_conversation_is_the_first_listed(
    items: Seq<JsonModel>,
    number: Seq<char>,
    n: int,
)
    requires
        0 <= n < items.len(),
        listed_for(items[n], number),
        text_at(items[n], "id"@) is Some,
        forall|i: int|
            0 <= i < n ==> !listed_for(#[trigger] items[i], number) || text_at(
                items[i],
                "id"@,
            ) is None,
    ensures
        found_conversation(JsonModel::Array(items), number) == text_at(items[n], "id"@),
    decreases n,
{
    lemma_listed(items[0], number);
    if n > 0 {
        let rest = items.drop_first();
        assert(!listed_for(items[0], number) || text_at(items[0], "id"@) is None);
        assert forall|i: int| 0 <= i < n - 1 implies !listed_for(#[trigger] rest[i], number)
            || text_at(rest[i], "id"@) is None by {
            assert(rest[i] == items[i + 1]);
        }
        law_conversation_is_the_first_listed(rest, number, n - 1);
    }
}

/// A conversation is found exactly when one is listed: one whose participant is
/// the number itself and that has an identifier is never missed, nor is one whose
/// participant is the number without its plus sign.
pub proof fn law_listed_conversation_is_found(listing: JsonModel, number: Seq<char>)
    ensures
        found_conversation(listing, number) is Some <==> listing is Array && exists|i: int|
            0 <= i < listing->Array_0.len() && listed_for(#[trigger] listing->Array_0[i], number)
                && text_at(listing->Array_0[i], "id"@) is Some,
{
    if listing is Array {
        lemma_found(listing->Array_0, number);
    }
}

proof fn lemma_found(items: Seq<JsonModel>, number: Seq<char>)
    ensures
        first_conversation(items, number) is Some <==> exists|i: int|
            0 <= i < items.len() && listed_for(#[trigger] items[i], number) && text_at(
                items[i],
                "id"@,
            ) is Some,
    decreases items.len(),
{
    if items.len() > 0 {
        lemma_listed(items[0], number);
        let rest = items.drop_first();
        lemma_found(rest, number);
        if first_conversation(rest, number) is Some {
            let i = choose|i: int|
                0 <= i < rest.len() && listed_for(#[trigger] rest[i], number) && text_at(
                    rest[i],
                    "id"@,
                ) is Some;
            assert(items[i + 1] == rest[i]);
        }
        if exists|i: int|
            0 <= i < items.len() && listed_for(#[trigger] items[i], number) && text_at(
                items[i],
                "id"@,
            ) is Some {
            let i = choose|i: int|
                0 <= i < items.len() && listed_for(#[trigger] items[i], number) && text_at(
                    items[i],
                    "id"@,
                ) is Some;
            if i > 0 {
                assert(rest[i - 1] == items[i]);
            }
        }
    }
}

/// Sending begins with a request for the agent's conversations, under the
/// channel's key; without an agent, or to a number that may not be written to, it
/// ends with an error that says so.
pub proof fn law_sending_lists_the_conversations(
    channel: ChannelModel,
    recipient: Seq<char>,
    now: u64,
)
    ensures
        ({
            let start = channel.send_start(recipient, now);
            let allowed = exists|i: int|
                0 <= i < channel.allowed_numbers.len() && ((
                #[trigger] channel.allowed_numbers[i]).number_text() == recipient
                    || channel.allowed_numbers[i].number_text() == "*"@);
            let active = channel.sessions.contains_key(recipient) && now
                <= channel.sessions[recipient].started_at + channel.sessions[recipient].ttl_secs;
            &&& channel.agent_id is None ==> start == Err::<RequestModel, _>(
                "AgentPhone: agent_id required to send messages"@,
            )
            &&& channel.agent_id is Some && !allowed && !active ==> start == Err::<RequestModel, _>(
                "AgentPhone: recipient "@ + recipient + " is not in allowed_numbers"@,
            )
            &&& channel.agent_id is Some && (allowed || active) ==> start is Ok
            &&& match start {
                Ok(request) => {
                    &&& request.method == Method::Get
                    &&& request.url == "https://api.agentphone.to/v1"@ + "/agents/"@
                        + channel.agent_id->0 + "/conversations"@
                    &&& request.query == seq![("limit"@, "100"@)]
                    &&& request.headers == seq![("Authorization"@, "Bearer "@ + channel.api_key)]
                    &&& request.body is None
                },
                Err(_) => true,
            }
        }),
{
    law_allowed_by_number_or_wildcard(channel.allowed_numbers, recipient);
}

/// What is written goes out into the conversation that is found for the
/// recipient, as the reply of its metadata; where none is found nothing goes out,
/// and a listing that fails is told of.
pub proof fn law_message_goes_into_the_conversation(
    api_key: Seq<char>,
    recipient: Seq<char>,
    content: Seq<char>,
    reply: ReplyModel,
    listing: JsonModel,
)
    ensures
        ({
            let step = send_step(api_key, recipient, content, Ok(reply), Some(listing));
            let found = found_conversation(listing, recipient);
            &&& reply.code / 100 != 2 ==> step == SendStepModel::Failed(
                "AgentPhone: failed to list conversations: "@ + reply.status + " — "@ + reply.body,
            )
            &&& reply.code / 100 == 2 && found is None ==> step == SendStepModel::NoConversation
            &&& reply.code / 100 == 2 && found is Some ==> {
                &&& step is Send
                &&& step->Send_0.method == Method::Patch
                &&& step->Send_0.url == "https://api.agentphone.to/v1"@ + "/conversations/"@
                    + found->0
                &&& step->Send_0.headers == seq![("Authorization"@, "Bearer "@ + api_key)]
                &&& step->Send_0.body is Some
                &&& field(step->Send_0.body->0, "metadata"@) is Some
                &&& text_at(field(step->Send_0.body->0, "metadata"@)->0, "_reply"@) == Some(content)
                &&& forall|key: Seq<char>| #[trigger]
                    field(step->Send_0.body->0, key) is Some ==> key == "metadata"@
            }
        }),
{
}

/// A listing that could not be had, or is no JSON, ends the sending.
pub proof fn law_no_listing_no_message(
    api_key: Seq<char>,
    recipient: Seq<char>,
    content: Seq<char>,
    error: Seq<char>,
    reply: ReplyModel,
    listing: Option<JsonModel>,
)
    ensures
        send_step(api_key, recipient, content, Err(error), listing) == SendStepModel::Failed(error),
        reply.code / 100 == 2 ==> send_step(api_key, recipient, content, Ok(reply), None)
            == SendStepModel::Failed("error decoding response body"@),
        reply.code / 100 != 2 ==> send_step(api_key, recipient, content, Ok(reply), listing)
            == SendStepModel::Failed(
            "AgentPhone: failed to list conversations: "@ + reply.status + " — "@ + reply.body,
        ),
{
}

/// A message was sent well exactly when its request was answered with a success;
/// otherwise the error or the status is told.
pub proof fn law_sent_means_answered_well(reply: Result<ReplyModel, Seq<char>>)
    ensures
        match reply {
            Ok(r) => if r.code / 100 == 2 {
                send_result(reply) is Ok
            } else {
                send_result(reply) == Err::<(), _>("AgentPhone API error: "@ + r.status)
            },
            Err(error) => send_result(reply) == Err::<(), _>(error),
        },
{
}

/// The agent's voice and greeting are sent as they are configured, and nothing is
/// where there is no agent or neither is configured.
pub proof fn law_sync_carries_what_is_configured(channel: ChannelModel)
    ensures
        channel.sync_request() is Some <==> channel.agent_id is Some && (channel.voice is Some
            || channel.begin_message is Some),
        match channel.sync_request() {
            Some(request) => {
                let body = request.body->0;
                &&& request.method == Method::Patch
                &&& request.url == "https://api.agentphone.to/v1"@ + "/agents/"@
                    + channel.agent_id->0
                &&& request.headers == seq![("Authorization"@, "Bearer "@ + channel.api_key)]
                &&& request.query.len() == 0
                &&& request.body is Some
                &&& text_at(body, "voiceMode"@) == Some("webhook"@)
                &&& text_at(body, "voice"@) == channel.voice
                &&& text_at(body, "beginMessage"@) == channel.begin_message
                &&& forall|key: Seq<char>| #[trigger]
                    field(body, key) is Some ==> key == "voiceMode"@ || key == "voice"@ || key
                        == "beginMessage"@
            },
            None => true,
        },
{
    lemma_texts_differ();
}

/// Health is asked for by listing one agent.
pub proof fn law_health_lists_one_agent(channel: ChannelModel)
    ensures
        ({
            let request = channel.health_request();
            &&& request.method == Method::Get
            &&& request.url == "https://api.agentphone.to/v1"@ + "/agents"@
            &&& request.query == seq![("limit"@, "1"@)]
            &&& request.headers == seq![("Authorization"@, "Bearer "@ + channel.api_key)]
            &&& request.body is None
        }),
{
}

} // verus!
