//! Chat messages: the leaves of a span query.

use vstd::prelude::*;

verus! {

/// Some sort of chat message.
#[derive(Debug, Clone, PartialEq)]
pub enum Message {
    /// Assistant output
    Assistant(String),
    /// User prompt
    User(String),
    /// System prompt
    System(String),
}

/// The mathematical value of a [`Message`]: its kind and its characters.
pub enum MessageModel {
    Assistant(Seq<char>),
    User(Seq<char>),
    System(Seq<char>),
}

impl MessageModel {
    /// The role name of the message.
    pub open spec fn role(self) -> Seq<char> {
        match self {
            MessageModel::Assistant(_) => "assistant"@,
            MessageModel::User(_) => "user"@,
            MessageModel::System(_) => "system"@,
        }
    }

    /// The text of the message.
    pub open spec fn content(self) -> Seq<char> {
        match self {
            MessageModel::Assistant(s) => s,
            MessageModel::User(s) => s,
            MessageModel::System(s) => s,
        }
    }

    /// Both messages are of the same kind.
    pub open spec fn same_kind(self, other: MessageModel) -> bool {
        match (self, other) {
            (MessageModel::Assistant(_), MessageModel::Assistant(_)) => true,
            (MessageModel::User(_), MessageModel::User(_)) => true,
            (MessageModel::System(_), MessageModel::System(_)) => true,
            _ => false,
        }
    }
}

impl View for Message {
    type V = MessageModel;

    open spec fn view(&self) -> MessageModel {
        match self {
            Message::Assistant(s) => MessageModel::Assistant(s@),
            Message::User(s) => MessageModel::User(s@),
            Message::System(s) => MessageModel::System(s@),
        }
    }
}

impl Message {
    /// The role name: "assistant", "user" or "system".
    pub fn role(&self) -> (r: &'static str)
        ensures
            r@ == self@.role(),
    {
        match self {
            Message::Assistant(_) => "assistant",
            Message::User(_) => "user",
            Message::System(_) => "system",
        }
    }

    /// A copy of the message text.
    pub fn content(&self) -> (r: String)
        ensures
            r@ == self@.content(),
    {
        match self {
            Message::Assistant(s) => s.clone(),
            Message::User(s) => s.clone(),
            Message::System(s) => s.clone(),
        }
    }

    /// A borrow of the message text.
    pub fn text(&self) -> (r: &String)
        ensures
            r@ == self@.content(),
    {
        match self {
            Message::Assistant(s) => s,
            Message::User(s) => s,
            Message::System(s) => s,
        }
    }

    /// Whether the message text is empty.
    pub fn is_empty(&self) -> (r: bool)
        ensures
            r == (self@.content().len() == 0),
    {
        self.text().as_str().unicode_len() == 0
    }

    /// A user message holding `s` (what `From<&str>` gives).
    pub fn user(s: &str) -> (r: Message)
        ensures
            r@ == MessageModel::User(s@),
    {
        Message::User(String::from_str(s))
    }

    /// The text that `Display` shows: the message text alone.
    pub fn display_text(&self) -> (r: String)
        ensures
            r@ == self@.content(),
    {
        self.content()
    }

    /// A copy of the message.
    pub fn duplicate(&self) -> (r: Message)
        ensures
            r == *self,
    {
        match self {
            Message::Assistant(s) => Message::Assistant(s.clone()),
            Message::User(s) => Message::User(s.clone()),
            Message::System(s) => Message::System(s.clone()),
        }
    }
}

} // verus!
