//! The input state of the command bar and its update rule.

use vstd::prelude::*;

verus! {

/// An event produced by the user interface: the text field reporting its new
/// contents after a keystroke.
#[derive(Debug, PartialEq, Clone)]
pub enum Message {
    InputChanged(String),
}

/// The text carried by a message.
pub open spec fn message_text(m: Message) -> Seq<char> {
    match m {
        Message::InputChanged(t) => t@,
    }
}

/// The whole state of the command bar: the current contents of its one text
/// field. The field always holds exactly the text of the most recent input
/// event, and is empty at launch.
#[derive(Debug)]
pub struct CommandBar {
    pub text: String,
}

impl CommandBar {
    /// A freshly launched bar holds no text.
    pub fn new() -> (r: CommandBar)
        ensures
            r.text@ == Seq::<char>::empty(),
    {
        CommandBar { text: String::new() }
    }

    /// The window title.
    pub fn title(&self) -> (r: String)
        ensures
            r@ == "cmdbar"@,
    {
        "cmdbar".to_owned()
    }

    /// Apply one input event: the field takes the text the event carries,
    /// whatever the bar held before.
    pub fn update(&mut self, message: Message)
        ensures
            final(self).text@ == message_text(message),
    {
        match message {
            Message::InputChanged(t) => {
                self.text = t;
            },
        }
    }
}

} // verus!
