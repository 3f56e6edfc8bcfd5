use crate::models::contact::copy_text;
use crate::models::common::opt_view;
use vstd::prelude::*;

verus! {

/// A message of a conversation: a text or a nudge.
pub struct Message {
    pub sender: String,
    pub receiver: Option<String>,
    pub is_nudge: bool,
    pub text: String,
    pub bold: bool,
    pub italic: bool,
    pub underline: bool,
    pub strikethrough: bool,
    pub session_id: Option<String>,
    pub color: String,
    pub is_history: bool,
    pub errored: bool,
}

pub ghost struct MessageView {
    pub sender: Seq<char>,
    pub receiver: Option<Seq<char>>,
    pub is_nudge: bool,
    pub text: Seq<char>,
    pub bold: bool,
    pub italic: bool,
    pub underline: bool,
    pub strikethrough: bool,
    pub session_id: Option<Seq<char>>,
    pub color: Seq<char>,
    pub is_history: bool,
    pub errored: bool,
}

impl View for Message {
    type V = MessageView;

    open spec fn view(&self) -> MessageView {
        MessageView {
            sender: self.sender@,
            receiver: opt_view(self.receiver),
            is_nudge: self.is_nudge,
            text: self.text@,
            bold: self.bold,
            italic: self.italic,
            underline: self.underline,
            strikethrough: self.strikethrough,
            session_id: opt_view(self.session_id),
            color: self.color@,
            is_history: self.is_history,
            errored: self.errored,
        }
    }
}

impl Message {
    pub fn duplicate(&self) -> (r: Message)
        ensures
            r@ == self@,
    {
        Message {
            sender: self.sender.clone(),
            receiver: copy_text(&self.receiver),
            is_nudge: self.is_nudge,
            text: self.text.clone(),
            bold: self.bold,
            italic: self.italic,
            underline: self.underline,
            strikethrough: self.strikethrough,
            session_id: copy_text(&self.session_id),
            color: self.color.clone(),
            is_history: self.is_history,
            errored: self.errored,
        }
    }
}

} // verus!
