//! What a command has to say for itself once it has run.

use vstd::prelude::*;

use crate::text::string_of;

verus! {

/// What a command has to say for itself once it has run.
#[derive(Debug, PartialEq, Eq)]
pub enum CommandMessage {
    /// The command ran but nothing on the screen shows that it did.
    Ran(String),
    /// The keys pressed do not form a command.
    UnknownCommand(String),
    /// The command could not be run.
    Failed(String),
}

/// What a message is seen as: its kind and its text.
pub enum MessageView {
    /// The command ran.
    Ran(Seq<char>),
    /// The keys pressed do not form a command.
    UnknownCommand(Seq<char>),
    /// The command could not be run.
    Failed(Seq<char>),
}

impl MessageView {
    /// How a message is shown.
    pub open spec fn text(self) -> Seq<char> {
        match self {
            MessageView::Ran(what) => what,
            MessageView::UnknownCommand(keys) => unknown_command_prefix() + keys,
            MessageView::Failed(why) => why,
        }
    }
}

impl View for CommandMessage {
    type V = MessageView;

    open spec fn view(&self) -> MessageView {
        match self {
            CommandMessage::Ran(what) => MessageView::Ran(what@),
            CommandMessage::UnknownCommand(keys) => MessageView::UnknownCommand(keys@),
            CommandMessage::Failed(why) => MessageView::Failed(why@),
        }
    }
}

/// The text shown before the keys which do not form a command.
pub open spec fn unknown_command_prefix() -> Seq<char> {
    seq!['u', 'n', 'k', 'n', 'o', 'w', 'n', ' ', 'c', 'o', 'm', 'm', 'a', 'n', 'd', ' ']
}

impl CommandMessage {
    /// How a message is shown.
    pub open spec fn spec_text(&self) -> Seq<char> {
        match self {
            CommandMessage::Ran(what) => what@,
            CommandMessage::UnknownCommand(keys) => unknown_command_prefix() + keys@,
            CommandMessage::Failed(why) => why@,
        }
    }

    /// Return how the message is shown.
    pub fn text(&self) -> (r: String)
        ensures
            r@ == self.spec_text(),
            r@ == self@.text(),
    {
        match self {
            CommandMessage::Ran(what) => what.clone(),
            CommandMessage::UnknownCommand(keys) => {
                let mut r = string_of("unknown command ");
                proof {
                    reveal_strlit("unknown command ");
                }
                assert(r@ =~= unknown_command_prefix());
                r.append(keys.as_str());
                r
            },
            CommandMessage::Failed(why) => why.clone(),
        }
    }
}

} // verus!
