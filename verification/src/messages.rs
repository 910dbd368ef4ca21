//! One-shot page messages: queued while a request is handled, shown once,
//! then cleared.

use vstd::prelude::*;

verus! {

/// How a message is presented to the visitor.
#[derive(Clone, Copy, Debug, PartialEq, Eq, Structural)]
pub enum MessageLevel {
    Error,
    Success,
}

/// The text that stands for a level in a rendered page.
pub open spec fn level_text(level: MessageLevel) -> Seq<char> {
    match level {
        MessageLevel::Error => "error"@,
        MessageLevel::Success => "success"@,
    }
}

/// A message and the level it is shown at.
pub struct PageMessage {
    pub level: &'static str,
    pub text: String,
}

/// The mathematical value of a message.
pub struct PageMessageView {
    pub level: Seq<char>,
    pub text: Seq<char>,
}

impl View for PageMessage {
    type V = PageMessageView;

    open spec fn view(&self) -> PageMessageView {
        PageMessageView { level: self.level@, text: self.text@ }
    }
}

impl PageMessage {
    /// Builds a message shown at `level` with the given text.
    pub fn new(level: MessageLevel, text: &str) -> (message: PageMessage)
        ensures
            message@.level == level_text(level),
            message@.text == text@,
    {
        let level = match level {
            MessageLevel::Error => "error",
            MessageLevel::Success => "success",
        };
        PageMessage { level, text: text.to_string() }
    }
}

impl Clone for PageMessage {
    fn clone(&self) -> (copy: PageMessage)
        ensures
            copy@ == self@,
    {
        PageMessage { level: self.level, text: self.text.clone() }
    }
}

/// The values of a list of messages, in order.
pub open spec fn message_views(messages: Seq<PageMessage>) -> Seq<PageMessageView> {
    Seq::new(messages.len(), |i: int| messages[i]@)
}

/// The messages waiting to be shown, oldest first.
pub struct PageMessages(Vec<PageMessage>);

impl View for PageMessages {
    type V = Seq<PageMessageView>;

    closed spec fn view(&self) -> Seq<PageMessageView> {
        message_views(self.0@)
    }
}

impl PageMessages {
    /// No message is waiting.
    pub fn new() -> (messages: PageMessages)
        ensures
            messages@ == Seq::<PageMessageView>::empty(),
    {
        PageMessages(Vec::new())
    }

    /// The given messages wait in their order.
    pub fn from_messages(messages: Vec<PageMessage>) -> (waiting: PageMessages)
        ensures
            waiting@ == message_views(messages@),
    {
        PageMessages(messages)
    }

    /// Queues `message` behind those already waiting.
    pub fn add(&mut self, message: PageMessage)
        ensures
            final(self)@ == old(self)@.push(message@),
    {
        self.0.push(message);
    }

    /// The number of messages waiting.
    pub fn len(&self) -> (n: usize)
        ensures
            n == self@.len(),
    {
        self.0.len()
    }

    /// Tells whether no message is waiting.
    pub fn is_empty(&self) -> (r: bool)
        ensures
            r == (self@.len() == 0),
    {
        self.0.len() == 0
    }

    /// Hands out every waiting message, oldest first, and leaves none
    /// behind: a message is read once.
    pub fn take(&mut self) -> (taken: Vec<PageMessage>)
        ensures
            message_views(taken@) == old(self)@,
            final(self)@ == Seq::<PageMessageView>::empty(),
    {
        let mut taken: Vec<PageMessage> = Vec::new();
        core::mem::swap(&mut self.0, &mut taken);
        taken
    }
}

impl Clone for PageMessages {
    fn clone(&self) -> (copy: PageMessages)
        ensures
            copy@ == self@,
    {
        PageMessages(self.0.clone())
    }
}

} // verus!
