//! Messages: short texts from one identity to another.

use vstd::prelude::*;
use vstd::string::*;

verus! {

/// What a stored message is, as plain values.
pub struct MessageView {
    pub id: i32,
    pub from: i32,
    pub to: i32,
    pub message: Seq<char>,
}

/// What a message that is not stored yet is, as plain values.
pub struct NewMessageView {
    pub from: i32,
    pub to: i32,
    pub message: Seq<char>,
}

/// A message as the message store holds it. It never changes once stored.
pub struct Message {
    id: i32,
    from: i32,
    to: i32,
    message: String,
}

impl View for Message {
    type V = MessageView;

    closed spec fn view(&self) -> MessageView {
        MessageView { id: self.id, from: self.from, to: self.to, message: self.message@ }
    }
}

impl Clone for Message {
    fn clone(&self) -> (r: Self)
        ensures
            r@ == self@,
    {
        Message { id: self.id, from: self.from, to: self.to, message: self.message.clone() }
    }
}

impl Message {
    /// Puts a stored message together from its four columns.
    pub fn from_parts(id: i32, from: i32, to: i32, message: String) -> (r: Message)
        ensures
            r@ == (MessageView { id, from, to, message: message@ }),
    {
        Message { id, from, to, message }
    }

    pub fn get_id(&self) -> (r: i32)
        ensures
            r == self@.id,
    {
        self.id
    }

    pub fn get_message(&self) -> (r: String)
        ensures
            r@ == self@.message,
    {
        self.message.clone()
    }

    pub fn get_from(&self) -> (r: i32)
        ensures
            r == self@.from,
    {
        self.from
    }

    pub fn get_to(&self) -> (r: i32)
        ensures
            r == self@.to,
    {
        self.to
    }
}

/// A message on its way into the message store: it has no id yet.
pub struct NewMessage {
    from: i32,
    to: i32,
    message: String,
}

impl View for NewMessage {
    type V = NewMessageView;

    closed spec fn view(&self) -> NewMessageView {
        NewMessageView { from: self.from, to: self.to, message: self.message@ }
    }
}

impl NewMessage {
    pub fn new(from_user: i32, to_user: i32, the_message: String) -> (r: NewMessage)
        ensures
            r@ == (NewMessageView { from: from_user, to: to_user, message: the_message@ }),
    {
        NewMessage { from: from_user, to: to_user, message: the_message }
    }

    pub fn get_from(&self) -> (r: i32)
        ensures
            r == self@.from,
    {
        self.from
    }

    pub fn get_to(&self) -> (r: i32)
        ensures
            r == self@.to,
    {
        self.to
    }

    pub fn get_message(&self) -> (r: String)
        ensures
            r@ == self@.message,
    {
        self.message.clone()
    }
}

/// Builds a message field by field. An id, a sender or a recipient that is
/// not given is 0; the text must be given before the build.
pub struct Builder {
    id: Option<i32>,
    from: Option<i32>,
    to: Option<i32>,
    message: Option<String>,
}

impl Builder {
    /// The id given so far.
    pub closed spec fn id(&self) -> Option<i32> {
        self.id
    }

    /// The sender given so far.
    pub closed spec fn from(&self) -> Option<i32> {
        self.from
    }

    /// The recipient given so far.
    pub closed spec fn to(&self) -> Option<i32> {
        self.to
    }

    /// The text given so far.
    pub closed spec fn message(&self) -> Option<Seq<char>> {
        match self.message {
            Some(text) => Some(text@),
            None => None,
        }
    }

    pub fn new() -> (r: Self)
        ensures
            r.id() is None,
            r.from() is None,
            r.to() is None,
            r.message() is None,
    {
        Builder { id: None, from: None, to: None, message: None }
    }

    pub fn with_id(self, the_id: i32) -> (r: Builder)
        ensures
            r.id() == Some(the_id),
            r.from() == self.from(),
            r.to() == self.to(),
            r.message() == self.message(),
    {
        Builder { id: Some(the_id), from: self.from, to: self.to, message: self.message }
    }

    pub fn with_from(self, from: i32) -> (r: Builder)
        ensures
            r.from() == Some(from),
            r.id() == self.id(),
            r.to() == self.to(),
            r.message() == self.message(),
    {
        Builder { id: self.id, from: Some(from), to: self.to, message: self.message }
    }

    pub fn with_to(self, to: i32) -> (r: Builder)
        ensures
            r.to() == Some(to),
            r.id() == self.id(),
            r.from() == self.from(),
            r.message() == self.message(),
    {
        Builder { id: self.id, from: self.from, to: Some(to), message: self.message }
    }

    pub fn with_message(self, message: &str) -> (r: Builder)
        ensures
            r.message() == Some(message@),
            r.id() == self.id(),
            r.from() == self.from(),
            r.to() == self.to(),
    {
        Builder {
            id: self.id,
            from: self.from,
            to: self.to,
            message: Some(String::from_str(message)),
        }
    }

    pub fn build(&self) -> (r: Message)
        requires
            self.message() is Some,
        ensures
            r@ == (MessageView {
                id: match self.id() {
                    Some(value) => value,
                    None => 0,
                },
                from: match self.from() {
                    Some(value) => value,
                    None => 0,
                },
                to: match self.to() {
                    Some(value) => value,
                    None => 0,
                },
                message: self.message()->0,
            }),
    {
        let id: i32 = match self.id {
            Some(value) => value,
            None => 0,
        };
        let from: i32 = match self.from {
            Some(value) => value,
            None => 0,
        };
        let to: i32 = match self.to {
            Some(value) => value,
            None => 0,
        };
        let message = match &self.message {
            Some(value) => value.clone(),
            None => String::new(),
        };
        Message::from_parts(id, from, to, message)
    }
}

} // verus!
