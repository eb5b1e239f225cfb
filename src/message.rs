//! The messages that clients and the gateway exchange.
use vstd::prelude::*;

verus! {

/// One message of the client protocol.
#[derive(Debug, Clone, PartialEq, Eq)]
pub enum Message {
    /// A payload for the instrument, or the instrument's reply to one; the
    /// client's `request_id` comes back unchanged.
    Success { request_id: u64, contents: String },
    /// Asks whether the instrument is free, without claiming it.
    Check,
    /// Asks for exclusive use of the instrument.
    Start,
    /// Answers a `Check` when the instrument is free.
    Affirm,
    /// Reports an error; `request_id` is `None` when no request caused it.
    Failure { request_id: Option<u64>, contents: String },
}

/// A message as a mathematical value: texts as sequences of characters.
pub enum MessageModel {
    Success { request_id: u64, contents: Seq<char> },
    Check,
    Start,
    Affirm,
    Failure { request_id: Option<u64>, contents: Seq<char> },
}

impl View for Message {
    type V = MessageModel;

    open spec fn view(&self) -> MessageModel {
        match self {
            Message::Success { request_id, contents } => MessageModel::Success {
                request_id: *request_id,
                contents: contents@,
            },
            Message::Check => MessageModel::Check,
            Message::Start => MessageModel::Start,
            Message::Affirm => MessageModel::Affirm,
            Message::Failure { request_id, contents } => MessageModel::Failure {
                request_id: *request_id,
                contents: contents@,
            },
        }
    }
}

/// The text of the refusal sent while another session holds the instrument.
pub open spec fn busy_text() -> Seq<char> {
    "BUSY"@
}

/// The text of the answer to a message that does not fit the conversation.
pub open spec fn not_understood_text() -> Seq<char> {
    "don't understand"@
}

/// The refusal sent while another session holds the instrument.
pub open spec fn busy_model() -> MessageModel {
    MessageModel::Failure { request_id: None, contents: busy_text() }
}

/// The answer to a message that does not fit the conversation.
pub open spec fn not_understood_model() -> MessageModel {
    MessageModel::Failure { request_id: None, contents: not_understood_text() }
}

impl Message {
    /// `Failure { request_id: None, contents: "BUSY" }`.
    pub fn busy() -> (r: Message)
        ensures
            r@ == busy_model(),
    {
        Message::Failure { request_id: None, contents: "BUSY".to_owned() }
    }

    /// `Failure { request_id: None, contents: "don't understand" }`.
    pub fn not_understood() -> (r: Message)
        ensures
            r@ == not_understood_model(),
    {
        Message::Failure { request_id: None, contents: "don't understand".to_owned() }
    }

    /// The correlation id that the message carries, if any.
    pub fn request_id(&self) -> (r: Option<u64>)
        ensures
            r == self@.request_id(),
    {
        match self {
            Message::Success { request_id, .. } => Some(*request_id),
            Message::Failure { request_id, .. } => *request_id,
            _ => None,
        }
    }
}

impl MessageModel {
    /// The correlation id that the message carries, if any.
    pub open spec fn request_id(self) -> Option<u64> {
        match self {
            MessageModel::Success { request_id, .. } => Some(request_id),
            MessageModel::Failure { request_id, .. } => request_id,
            _ => None,
        }
    }
}

/// The view of a message that may have failed to decode.
pub open spec fn received(m: Option<Message>) -> Option<MessageModel> {
    match m {
        Some(msg) => Some(msg@),
        None => None,
    }
}

} // verus!
