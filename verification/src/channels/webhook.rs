//! Webhook events: what an event says, and how its content is put together for
//! the agent.
use vstd::prelude::*;
use vstd::utf8::encode_utf8;
use crate::clock::{cast_unsigned, parse_rfc3339, rfc3339_seconds, unsigned_bits};
use crate::json::{
    field, is_positive, is_positive_number, items_model, items_of, number_of, text_at, text_of,
    Json, JsonModel,
};
use crate::json_text::{print_json, printed, two_decimals, two_decimals_text};
use crate::text::{
    byte_prefix, can_cut, can_truncate, cat2, cat3, cat5, has_prefix, join, joined, opt_str,
    opt_string, or_text, owned, same, strip_prefix, take_bytes, text_or, texts,
};

verus! {

/// A phone number with its leading plus sign.
pub open spec fn e164(number: Seq<char>) -> Seq<char> {
    if has_prefix(number, "+"@) {
        number
    } else {
        "+"@ + number
    }
}

/// Writes a phone number with its leading plus sign.
pub fn to_e164(number: &str) -> (text: String)
    ensures
        text@ == e164(number@),
{
    match strip_prefix(number, "+") {
        Some(_) => number.to_string(),
        None => cat2("+", number),
    }
}

/// Who the agent is talking with: the receiver where the agent itself is the
/// sender and there is a receiver, and the sender otherwise.
pub open spec fn counterparty_of(
    agent_number: Option<Seq<char>>,
    from: Seq<char>,
    to: Seq<char>,
) -> Seq<char> {
    if agent_number == Some(e164(from)) && e164(to) != "+"@ {
        e164(to)
    } else {
        e164(from)
    }
}

/// Tells who the agent is talking with.
pub fn resolve_counterparty(agent_number: Option<&str>, from: &str, to: &str) -> (number: String)
    ensures
        number@ == counterparty_of(opt_str(agent_number), from@, to@),
{
    let normalized_from = to_e164(from);
    match agent_number {
        Some(own) => if same(normalized_from.as_str(), own) {
            let normalized_to = to_e164(to);
            if same(normalized_to.as_str(), "+") {
                normalized_from
            } else {
                normalized_to
            }
        } else {
            normalized_from
        },
        None => normalized_from,
    }
}

/// A time stamp down to the minute: its first 16 bytes.
pub open spec fn short_time(time: Seq<char>) -> Seq<char> {
    if encode_utf8(time).len() <= 16 {
        time
    } else {
        byte_prefix(time, 16)
    }
}

/// The body of an entry of the history.
pub open spec fn entry_body(entry: JsonModel) -> Seq<char> {
    text_or(text_at(entry, "body"@), ""@)
}

/// The time of an entry of the history.
pub open spec fn entry_time(entry: JsonModel) -> Seq<char> {
    text_or(text_at(entry, "receivedAt"@), ""@)
}

/// Who speaks in an entry of the history.
pub open spec fn entry_speaker(entry: JsonModel, from: Seq<char>) -> Seq<char> {
    if text_or(text_at(entry, "direction"@), "unknown"@) == "inbound"@ {
        from
    } else {
        "Agent"@
    }
}

/// An entry of the history as a line.
pub open spec fn history_line(entry: JsonModel, from: Seq<char>) -> Seq<char> {
    "["@ + short_time(entry_time(entry)) + "] "@ + entry_speaker(entry, from) + ": "@
        + entry_body(entry)
}

/// The lines of a history, without the entries that say nothing.
pub open spec fn history_lines(entries: Seq<JsonModel>, from: Seq<char>) -> Seq<Seq<char>>
    decreases entries.len(),
{
    if entries.len() == 0 {
        Seq::empty()
    } else {
        let before = history_lines(entries.drop_last(), from);
        if entry_body(entries.last()).len() == 0 {
            before
        } else {
            before.push(history_line(entries.last(), from))
        }
    }
}

/// The entries of a payload's history.
pub open spec fn history_of(payload: JsonModel) -> Option<Seq<JsonModel>> {
    match field(payload, "recentHistory"@) {
        Some(history) => items_of(history),
        None => None,
    }
}

/// Whether the time of every entry that says something can be cut to 16 bytes.
pub open spec fn entries_cuttable(entries: Seq<JsonModel>) -> bool {
    forall|i: int|
        0 <= i < entries.len() && entry_body(#[trigger] entries[i]).len() > 0 ==> can_cut(
            entry_time(entries[i]),
            16,
        )
}

/// Whether the time of every line of the history can be cut to 16 bytes.
pub open spec fn history_cuttable(payload: JsonModel) -> bool {
    match history_of(payload) {
        Some(entries) => entries_cuttable(entries),
        None => true,
    }
}

/// The history of a conversation as text: a heading, the lines, and the heading
/// of the message that follows.
pub open spec fn history_text(
    payload: JsonModel,
    channel_type: Seq<char>,
    from: Seq<char>,
) -> Option<Seq<char>> {
    match history_of(payload) {
        Some(entries) => if entries.len() == 0 {
            None
        } else {
            Some(
                joined(
                    seq!["[Conversation history with "@ + from + " via "@ + channel_type + "]"@]
                        + history_lines(entries, from) + seq!["[Current message]"@],
                    "\n"@,
                ),
            )
        },
        None => None,
    }
}

/// The state of a conversation as text.
pub open spec fn state_text(payload: JsonModel) -> Option<Seq<char>> {
    match field(payload, "conversationState"@) {
        Some(state) => if state == JsonModel::Null {
            None
        } else {
            Some("[conversation state: "@ + printed(state) + "] "@)
        },
        None => None,
    }
}

/// Whether the time of every line of the payload's history can be cut to 16
/// bytes.
pub fn is_history_cuttable(payload: &Json) -> (cuttable: bool)
    ensures
        cuttable == history_cuttable(payload@),
{
    let entries = match payload.get("recentHistory") {
        Some(history) => match history.as_array() {
            Some(entries) => entries,
            None => {
                return true;
            },
        },
        None => {
            return true;
        },
    };
    let ghost models = items_model(entries@);
    let mut i: usize = 0;
    while i < entries.len()
        invariant
            i <= entries.len(),
            models == items_model(entries@),
            history_of(payload@) == Some(models),
            entries_cuttable(models.take(i as int)),
        decreases entries.len() - i,
    {
        let entry = &entries[i];
        assert(models[i as int] == entry@);
        let body = or_text(entry.str_at("body"), "");
        let time = or_text(entry.str_at("receivedAt"), "");
        if !body.is_empty() && !can_truncate(time, 16) {
            return false;
        }
        assert forall|k: int|
            0 <= k < i + 1 && entry_body(#[trigger] models.take(i + 1)[k]).len() > 0 implies can_cut(
            entry_time(models.take(i + 1)[k]),
            16,
        ) by {
            if k < i {
                assert(models.take(i as int)[k] == models[k]);
            }
        }
        i = i + 1;
    }
    assert(models.take(entries.len() as int) =~= models);
    true
}

/// Formats the `recentHistory` of a payload as a chronological log.
pub fn format_recent_history(payload: &Json, channel_type: &str, from: &str) -> (text: Option<
    String,
>)
    requires
        history_cuttable(payload@),
    ensures
        opt_string(text) == history_text(payload@, channel_type@, from@),
{
    let entries = match payload.get("recentHistory") {
        Some(history) => match history.as_array() {
            Some(entries) => entries,
            None => {
                return None;
            },
        },
        None => {
            return None;
        },
    };
    if entries.len() == 0 {
        return None;
    }
    let ghost models = items_model(entries@);
    let heading = cat5("[Conversation history with ", from, " via ", channel_type, "]");
    let ghost head = seq!["[Conversation history with "@ + from@ + " via "@ + channel_type@ + "]"@];
    let mut lines: Vec<String> = Vec::new();
    lines.push(heading);
    let mut i: usize = 0;
    proof {
        assert(models.take(0) =~= Seq::empty());
        assert(texts(lines@) =~= head + history_lines(models.take(0), from@));
    }
    while i < entries.len()
        invariant
            i <= entries.len(),
            models == items_model(entries@),
            history_of(payload@) == Some(models),
            history_cuttable(payload@),
            texts(lines@) == head + history_lines(models.take(i as int), from@),
        decreases entries.len() - i,
    {
        let entry = &entries[i];
        proof {
            assert(models[i as int] == entry@);
            assert(models.take(i + 1).drop_last() =~= models.take(i as int));
            assert(models.take(i + 1).last() == entry@);
        }
        let ghost before = lines@;
        let direction = or_text(entry.str_at("direction"), "unknown");
        let body = or_text(entry.str_at("body"), "");
        if !body.is_empty() {
            let time = or_text(entry.str_at("receivedAt"), "");
            let speaker = if same(direction, "inbound") {
                from
            } else {
                "Agent"
            };
            let minute = if time.as_bytes().len() <= 16 {
                time
            } else {
                take_bytes(time, 16)
            };
            let line = cat2(cat5("[", minute, "] ", speaker, ": ").as_str(), body);
            assert(line@ =~= history_line(entry@, from@));
            lines.push(line);
            assert(texts(lines@) =~= texts(before).push(history_line(entry@, from@)));
            assert(texts(lines@) =~= head + history_lines(models.take(i + 1), from@));
        }
        i = i + 1;
    }
    let ghost before = lines@;
    lines.push("[Current message]".to_string());
    proof {
        assert(models.take(entries.len() as int) =~= models);
        assert(texts(lines@) =~= texts(before).push("[Current message]"@));
        assert(texts(lines@) =~= head + history_lines(models, from@) + seq!["[Current message]"@]);
    }
    Some(join(&lines, "\n"))
}

/// Formats the `conversationState` of a payload as a prefix.
pub fn format_conversation_state(payload: &Json) -> (text: Option<String>)
    ensures
        opt_string(text) == state_text(payload@),
{
    match payload.get("conversationState") {
        Some(state) => if state.is_null() {
            None
        } else {
            Some(cat3("[conversation state: ", print_json(state).as_str(), "] "))
        },
        None => None,
    }
}

/// What was said in a call, with how sure the transcription is.
pub open spec fn voice_text(data: JsonModel, transcript: Seq<char>) -> Seq<char> {
    let confidence = match field(data, "confidence"@) {
        Some(value) => number_of(value),
        None => None,
    };
    match confidence {
        Some(number) => if is_positive_number(number) {
            "[voice call, confidence: "@ + two_decimals_text(number) + "] "@ + transcript
        } else {
            "[voice call] "@ + transcript
        },
        None => "[voice call] "@ + transcript,
    }
}

/// The text of an SMS event.
pub open spec fn sms_text(data: JsonModel) -> Seq<char> {
    text_or(text_at(data, "message"@), ""@)
}

/// What was said in a voice event.
pub open spec fn transcript_text(data: JsonModel) -> Seq<char> {
    text_or(text_at(data, "transcript"@), ""@)
}

/// Whether an event is of a known kind of channel and says something.
pub open spec fn has_content(channel: Seq<char>, data: JsonModel) -> bool {
    ||| channel == "sms"@ && sms_text(data).len() > 0
    ||| channel == "voice"@ && transcript_text(data).len() > 0
}

/// What the message of an event says, where it says anything.
pub open spec fn raw_content(channel: Seq<char>, data: JsonModel) -> Option<Seq<char>> {
    if !has_content(channel, data) {
        None
    } else if channel == "sms"@ {
        Some(sms_text(data))
    } else {
        Some(voice_text(data, transcript_text(data)))
    }
}

/// Whether an event is of a known kind of channel and says something.
pub fn says_something(channel: &str, data: &Json) -> (something: bool)
    ensures
        something == has_content(channel@, data@),
{
    (same(channel, "sms") && !or_text(data.str_at("message"), "").is_empty()) || (same(
        channel,
        "voice",
    ) && !or_text(data.str_at("transcript"), "").is_empty())
}

/// Reads what the message of an event says.
pub fn read_content(channel: &str, data: &Json) -> (content: Option<String>)
    ensures
        opt_string(content) == raw_content(channel@, data@),
{
    proof {
        reveal_strlit("sms");
        reveal_strlit("voice");
        assert("sms"@.len() != "voice"@.len());
    }
    if same(channel, "sms") {
        let message = or_text(data.str_at("message"), "");
        if message.is_empty() {
            None
        } else {
            Some(message.to_string())
        }
    } else if same(channel, "voice") {
        let transcript = or_text(data.str_at("transcript"), "");
        if transcript.is_empty() {
            return None;
        }
        let confidence = match data.get("confidence") {
            Some(value) => value.number_text(),
            None => None,
        };
        match confidence {
            Some(number) => if is_positive(number.as_str()) {
                let rounded = two_decimals(number.as_str());
                let prefix = cat3("[voice call, confidence: ", rounded.as_str(), "] ");
                Some(cat2(prefix.as_str(), transcript))
            } else {
                Some(cat2("[voice call] ", transcript))
            },
            None => Some(cat2("[voice call] ", transcript)),
        }
    } else {
        None
    }
}

/// The content of a message: the history, the state and what was said, as far
/// as they are there.
pub open spec fn enriched(
    payload: JsonModel,
    channel: Seq<char>,
    counterparty: Seq<char>,
    raw: Seq<char>,
) -> Seq<char> {
    let history = match history_text(payload, channel, counterparty) {
        Some(text) => seq![text],
        None => Seq::empty(),
    };
    let state = match state_text(payload) {
        Some(text) => seq![text],
        None => Seq::empty(),
    };
    joined(history + state + seq![raw], "\n"@)
}

/// Puts the content of a message together.
pub fn enrich(payload: &Json, channel: &str, counterparty: &str, raw: String) -> (content: String)
    requires
        history_cuttable(payload@),
    ensures
        content@ == enriched(payload@, channel@, counterparty@, raw@),
{
    let mut parts: Vec<String> = Vec::new();
    let ghost mut expected: Seq<Seq<char>> = Seq::empty();
    if let Some(history) = format_recent_history(payload, channel, counterparty) {
        proof {
            expected = seq![history@];
        }
        parts.push(history);
    }
    assert(texts(parts@) =~= expected);
    if let Some(state) = format_conversation_state(payload) {
        proof {
            expected = expected + seq![state@];
        }
        parts.push(state);
    }
    assert(texts(parts@) =~= expected);
    parts.push(raw);
    assert(texts(parts@) =~= expected + seq![raw@]);
    proof {
        let history = match history_text(payload@, channel@, counterparty@) {
            Some(text) => seq![text],
            None => Seq::empty(),
        };
        let state = match state_text(payload@) {
            Some(text) => seq![text],
            None => Seq::empty(),
        };
        assert(expected =~= history + state);
    }
    join(&parts, "\n")
}

/// The time of an event in seconds: what its time stamp says, or else the time
/// at which it is read.
pub open spec fn event_time(payload: JsonModel, now: u64) -> u64 {
    match text_at(payload, "timestamp"@) {
        Some(text) => match rfc3339_seconds(text) {
            Some(seconds) => unsigned_bits(seconds),
            None => now,
        },
        None => now,
    }
}

/// The time stamp of an event in seconds, if it has one.
pub fn read_time(payload: &Json) -> (seconds: Option<u64>)
    ensures
        forall|now: u64| #[trigger]
            event_time(payload@, now) == match seconds {
                Some(s) => s,
                None => now,
            },
{
    match payload.str_at("timestamp") {
        Some(text) => match parse_rfc3339(text) {
            Some(seconds) => Some(cast_unsigned(seconds)),
            None => None,
        },
        None => None,
    }
}

/// The thread of an event: its conversation, or else its call.
pub open spec fn thread_of(data: JsonModel) -> Option<Seq<char>> {
    match field(data, "conversationId"@) {
        Some(id) => text_of(id),
        None => text_at(data, "callId"@),
    }
}

/// Reads the thread of an event.
pub fn read_thread(data: &Json) -> (thread: Option<String>)
    ensures
        opt_string(thread) == thread_of(data@),
{
    match data.get("conversationId") {
        Some(id) => owned(id.as_str()),
        None => owned(data.str_at("callId")),
    }
}

/// A normalized number begins with a plus sign, and normalizing it again changes
/// nothing.
pub proof fn law_normalized_number_stays(number: Seq<char>)
    ensures
        has_prefix(e164(number), "+"@),
        e164(e164(number)) == e164(number),
{
    if !has_prefix(number, "+"@) {
        assert(e164(number).take("+"@.len() as int) =~= "+"@);
    }
}

/// The lines of a history stand in the order of its entries.
pub proof fn law_history_keeps_its_order(
    earlier: Seq<JsonModel>,
    later: Seq<JsonModel>,
    from: Seq<char>,
)
    ensures
        history_lines(earlier + later, from) == history_lines(earlier, from) + history_lines(
            later,
            from,
        ),
    decreases later.len(),
{
    if later.len() == 0 {
        assert(earlier + later =~= earlier);
        assert(history_lines(earlier, from) + history_lines(later, from) =~= history_lines(
            earlier,
            from,
        ));
    } else {
        law_history_keeps_its_order(earlier, later.drop_last(), from);
        assert((earlier + later).drop_last() =~= earlier + later.drop_last());
        assert((earlier + later).last() == later.last());
        assert(history_lines(earlier + later, from) =~= history_lines(earlier, from)
            + history_lines(later, from));
    }
}

/// An entry of a history gives one line, and none where it says nothing.
pub proof fn law_silent_entries_give_no_line(entry: JsonModel, from: Seq<char>)
    ensures
        history_lines(seq![entry], from) == if entry_body(entry).len() == 0 {
            Seq::<Seq<char>>::empty()
        } else {
            seq![history_line(entry, from)]
        },
{
    assert(seq![entry].drop_last() =~= Seq::empty());
    assert(history_lines(seq![entry].drop_last(), from) =~= Seq::empty());
    assert(history_lines(seq![entry], from) =~= if entry_body(entry).len() == 0 {
        Seq::<Seq<char>>::empty()
    } else {
        seq![history_line(entry, from)]
    });
}

} // verus!
