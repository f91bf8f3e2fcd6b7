//! Chat messages and the system notices of the join/leave lifecycle.

use vstd::prelude::*;
use vstd::string::*;

verus! {

/// One chat message: who said it, and what was said.
///
/// A message is an immutable value. The broadcaster makes one copy per
/// recipient, because each recipient's delivery pipeline consumes its own.
#[derive(Debug, PartialEq, Eq)]
pub struct ChatMessage {
    pub username: String,
    pub text: String,
}

/// The mathematical content of a [`ChatMessage`].
pub struct ChatMessageView {
    pub username: Seq<char>,
    pub text: Seq<char>,
}

impl View for ChatMessage {
    type V = ChatMessageView;

    open spec fn view(&self) -> ChatMessageView {
        ChatMessageView { username: self.username@, text: self.text@ }
    }
}

/// The sender name under which the relay itself speaks.
pub open spec fn system_username() -> Seq<char> {
    "System"@
}

/// The text that announces `username` joining.
pub open spec fn join_text(username: Seq<char>) -> Seq<char> {
    username + " joined this chat"@
}

/// The text that announces `username` leaving.
pub open spec fn leave_text(username: Seq<char>) -> Seq<char> {
    username + " left the chat"@
}

/// The line in which a client shows `message` to its user.
pub open spec fn display_line_of(message: ChatMessageView) -> Seq<char> {
    "["@ + message.username + "]: "@ + message.text
}

/// The notice that the relay broadcasts when `username` connects.
pub open spec fn join_notice(username: Seq<char>) -> ChatMessageView {
    ChatMessageView { username: system_username(), text: join_text(username) }
}

/// The notice that the relay broadcasts when `username` is gone.
pub open spec fn leave_notice(username: Seq<char>) -> ChatMessageView {
    ChatMessageView { username: system_username(), text: leave_text(username) }
}

impl Clone for ChatMessage {
    fn clone(&self) -> (copy: Self)
        ensures
            copy@ == self@,
    {
        ChatMessage { username: self.username.clone(), text: self.text.clone() }
    }
}

impl ChatMessage {
    /// A message from `username` saying `text`.
    pub fn new(username: String, text: String) -> (message: Self)
        ensures
            message@ == (ChatMessageView { username: username@, text: text@ }),
    {
        ChatMessage { username, text }
    }

    /// The system notice that `username` joined.
    pub fn joined(username: &str) -> (message: Self)
        ensures
            message@ == join_notice(username@),
    {
        let mut text = String::from_str(username);
        text.append(" joined this chat");
        ChatMessage { username: String::from_str("System"), text }
    }

    /// The system notice that `username` left.
    pub fn left(username: &str) -> (message: Self)
        ensures
            message@ == leave_notice(username@),
    {
        let mut text = String::from_str(username);
        text.append(" left the chat");
        ChatMessage { username: String::from_str("System"), text }
    }

    /// The line in which a client shows this message to its user: the
    /// sender's name in square brackets, a colon, and the text.
    pub fn display_line(&self) -> (line: String)
        ensures
            line@ == display_line_of(self@),
    {
        let mut line = String::from_str("[");
        line.append(self.username.as_str());
        line.append("]: ");
        line.append(self.text.as_str());
        line
    }
}

} // verus!
