//! The status message: one line of text and its kind.

use vstd::prelude::*;
use vstd::std_specs::convert::FromSpecImpl;
use vstd::string::StringExecFns;

verus! {

/// How a message is meant.
#[derive(Clone, Copy, Debug, PartialEq, Eq, Structural)]
pub enum MessageKind {
    Error,
    Info,
    Hint,
}

/// A message to the user.
#[derive(Debug)]
pub struct Message {
    msg: String,
    kind: MessageKind,
}

/// A message as a value.
pub struct MessageView {
    pub msg: Seq<char>,
    pub kind: MessageKind,
}

impl View for Message {
    type V = MessageView;

    closed spec fn view(&self) -> MessageView {
        MessageView { msg: self.msg@, kind: self.kind }
    }
}

/// The text that greets a user.
pub open spec fn startup_text() -> Seq<char> {
    "Type :add <habit-name> <goal> to get started, Ctrl-L to dismiss"@
}

impl Message {
    /// The message that greets a user.
    pub fn startup() -> (m: Message)
        ensures
            m@ == (MessageView { msg: startup_text(), kind: MessageKind::Info }),
    {
        Message {
            msg: String::from_str(
                "Type :add <habit-name> <goal> to get started, Ctrl-L to dismiss",
            ),
            kind: MessageKind::Info,
        }
    }

    pub fn contents(&self) -> (s: &str)
        ensures
            s@ == self@.msg,
    {
        self.msg.as_str()
    }

    pub fn kind(&self) -> (k: MessageKind)
        ensures
            k == self@.kind,
    {
        self.kind
    }

    pub fn set_kind(&mut self, k: MessageKind)
        ensures
            final(self)@ == (MessageView { kind: k, ..old(self)@ }),
    {
        self.kind = k;
    }

    pub fn set_message(&mut self, m: &str)
        ensures
            final(self)@ == (MessageView { msg: m@, ..old(self)@ }),
    {
        self.msg = m.to_owned();
    }

    /// Empties the text and keeps the kind.
    pub fn clear(&mut self)
        ensures
            final(self)@ == (MessageView { msg: Seq::empty(), ..old(self)@ }),
    {
        self.msg = String::new();
    }
}

impl From<&str> for Message {
    /// An informational message with the given text.
    fn from(item: &str) -> (m: Message)
        ensures
            m@ == (MessageView { msg: item@, kind: MessageKind::Info }),
    {
        Message { msg: item.to_owned(), kind: MessageKind::Info }
    }
}

impl FromSpecImpl<&str> for Message {
    /// A message is told from others by its view, so nothing is said of
    /// `from` beyond what it itself ensures.
    open spec fn obeys_from_spec() -> bool {
        false
    }

    closed spec fn from_spec(item: &str) -> Message {
        arbitrary()
    }
}

impl Default for Message {
    fn default() -> (m: Message)
        ensures
            m@ == (MessageView { msg: Seq::empty(), kind: MessageKind::Info }),
    {
        Message { msg: String::new(), kind: MessageKind::Info }
    }
}

} // verus!
