//! The messages that channels exchange with the agent.
use vstd::prelude::*;
use crate::text::opt_string;

verus! {

/// A file that comes with a message.
#[derive(Debug, Clone)]
pub struct MediaAttachment {
    pub file_name: String,
    pub data: Vec<u8>,
    pub mime_type: Option<String>,
}

/// A message that came in through a channel.
#[derive(Debug, Clone)]
pub struct ChannelMessage {
    pub id: String,
    pub sender: String,
    pub reply_target: String,
    pub content: String,
    pub channel: String,
    pub timestamp: u64,
    pub thread_ts: Option<String>,
    pub interruption_scope_id: Option<String>,
    pub attachments: Vec<MediaAttachment>,
}

/// What a message says.
pub struct MessageModel {
    pub id: Seq<char>,
    pub sender: Seq<char>,
    pub reply_target: Seq<char>,
    pub content: Seq<char>,
    pub channel: Seq<char>,
    pub timestamp: u64,
    pub thread_ts: Option<Seq<char>>,
    pub interruption_scope_id: Option<Seq<char>>,
    pub attachments: Seq<MediaAttachment>,
}

impl View for ChannelMessage {
    type V = MessageModel;

    open spec fn view(&self) -> MessageModel {
        MessageModel {
            id: self.id@,
            sender: self.sender@,
            reply_target: self.reply_target@,
            content: self.content@,
            channel: self.channel@,
            timestamp: self.timestamp,
            thread_ts: opt_string(self.thread_ts),
            interruption_scope_id: opt_string(self.interruption_scope_id),
            attachments: self.attachments@,
        }
    }
}

/// What a list of messages says.
pub open spec fn message_models(messages: Seq<ChannelMessage>) -> Seq<MessageModel> {
    Seq::new(messages.len(), |i: int| messages[i]@)
}

/// A message that is to go out through a channel.
#[derive(Debug, Clone)]
pub struct SendMessage {
    pub recipient: String,
    pub content: String,
}

/// What the text of a random UUID looks like: 32 lower-case hexadecimal digits
/// in groups, of which one tells the version and one the variant.
pub open spec fn uuid_v4_text(s: Seq<char>) -> bool {
    &&& s.len() == 36
    &&& s[8] == '-' && s[13] == '-' && s[18] == '-' && s[23] == '-'
    &&& s[14] == '4'
    &&& s[19] == '8' || s[19] == '9' || s[19] == 'a' || s[19] == 'b'
    &&& forall|i: int|
        0 <= i < 36 && i != 8 && i != 13 && i != 18 && i != 23 ==> {
            let c = #[trigger] s[i];
            '0' <= c <= '9' || 'a' <= c <= 'f'
        }
}

/// `uuid::Uuid::new_v4`, as `Uuid::to_string` prints it. The text has the form of
/// a random UUID; which one it is, is left to chance.
#[verifier::external_body]
pub(crate) fn new_message_id() -> (id: String)
    ensures
        uuid_v4_text(id@),
{
    uuid::Uuid::new_v4().to_string()
}

} // verus!
