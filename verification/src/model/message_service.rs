//! The message query engine: it stores messages and answers the keyset query
//! with a default limit. It checks no authorization: its callers do.

use crate::model::error::{Error, ServiceResult};
use crate::model::message::{Message, MessageView, NewMessage, NewMessageView};
use crate::model::repository::message_repository::MessageRepository;
use vstd::prelude::*;

verus! {

/// The number of messages that a query answers with where no limit is given.
pub const DEFAULT_LIMIT: i64 = 5;

/// The limit of a query: the one given, or the default.
pub open spec fn limit_or_default(limit: Option<i64>) -> i64 {
    match limit {
        Some(n) => n,
        None => DEFAULT_LIMIT,
    }
}

/// The message that a sender, a recipient and a text make.
pub open spec fn new_message(from: i32, to: i32, message: Seq<char>) -> NewMessageView {
    NewMessageView { from, to, message }
}

pub trait MessageService {
    /// The stored messages, in the order in which they were inserted, which
    /// is the order of their ids: every method says that the ids increase.
    /// A service that does not say what it holds leaves it open.
    open spec fn messages(&self) -> Seq<MessageView> {
        arbitrary()
    }

    /// Whether the store behind this service fails only where it must. A
    /// service is taken to fail unless it says otherwise.
    open spec fn reliable(&self) -> bool {
        false
    }

    /// Creates a new message from a user to another user and answers with its
    /// id. Only the store can make this fail, and then the message may or may
    /// not have been stored; a reliable store with an id left does not fail.
    fn create(&mut self, from: i32, to: i32, message: String) -> (r: ServiceResult<i32>)
        ensures
            final(self).reliable() == old(self).reliable(),
            crate::model::repository::message_repository::ids_increase(final(self).messages()),
            old(self).reliable() && crate::model::repository::message_repository::id_left(
                old(self).messages(),
            ) ==> r is Ok,
            match r {
                Ok(id) => crate::model::repository::message_repository::inserted(
                    old(self).messages(),
                    final(self).messages(),
                    new_message(from, to, message@),
                ) && id == final(self).messages().last().id,
                Err(e) => e is StorageError && (final(self).messages() == old(self).messages()
                    || crate::model::repository::message_repository::inserted(
                    old(self).messages(),
                    final(self).messages(),
                    new_message(from, to, message@),
                )),
            },
    ;

    /// Gets the message of the given id. That no message has the id is the
    /// error `NotFoundError`, apart from a failure of the store.
    fn get(&self, id: i32) -> (r: ServiceResult<Message>)
        ensures
            crate::model::repository::message_repository::ids_increase(self.messages()),
            match r {
                Ok(message) => message@.id == id && self.messages().contains(message@),
                Err(e) => {
                    &&& e is NotFoundError || e is StorageError
                    &&& self.reliable() ==> e is NotFoundError
                    &&& e is NotFoundError ==> forall|i: int|
                        0 <= i < self.messages().len() ==> (#[trigger] self.messages()[i]).id
                            != id
                },
            },
    ;

    /// Finds the messages of the user `from_user` since the message
    /// `from_msg`, by descending id and at most `limit` of them, or 5 where
    /// no limit is given. That no message matches is an empty answer, no
    /// error.
    fn find(&self, from_msg: i32, from_user: i32, limit: Option<i64>) -> (r: ServiceResult<
        Vec<Message>,
    >)
        ensures
            self.reliable() ==> r is Ok,
            crate::model::repository::message_repository::ids_increase(self.messages()),
            match r {
                Ok(found) => crate::model::repository::message_repository::message_views(found@)
                    == crate::model::repository::message_repository::page(
                    self.messages(),
                    from_msg,
                    from_user,
                    limit_or_default(limit),
                ) && crate::model::repository::message_repository::ids_descend(
                    crate::model::repository::message_repository::message_views(found@),
                ),
                Err(e) => e is StorageError,
            },
    ;
}

pub struct MessageServiceImpl<MessageRepo> {
    message_repository: MessageRepo,
}

impl<MessageRepo: MessageRepository> MessageServiceImpl<MessageRepo> {
    pub fn new(the_message_repository: MessageRepo) -> (r: Self)
        ensures
            r.messages() == the_message_repository.messages(),
            r.reliable() == the_message_repository.reliable(),
    {
        MessageServiceImpl { message_repository: the_message_repository }
    }
}

impl<MessageRepo: MessageRepository> MessageService for MessageServiceImpl<MessageRepo> {
    closed spec fn messages(&self) -> Seq<MessageView> {
        self.message_repository.messages()
    }

    closed spec fn reliable(&self) -> bool {
        self.message_repository.reliable()
    }

    fn create(&mut self, from: i32, to: i32, message: String) -> (r: ServiceResult<i32>) {
        let new_message = NewMessage::new(from, to, message);
        match self.message_repository.add(new_message) {
            Ok(id) => Ok(id),
            Err(err) => Err(Error::storage(&err)),
        }
    }

    fn get(&self, id: i32) -> (r: ServiceResult<Message>) {
        match self.message_repository.get(id) {
            Ok(message) => Ok(message),
            Err(crate::model::repository::error::Error::NotFound) => Err(Error::NotFoundError),
            Err(err) => Err(Error::storage(&err)),
        }
    }

    fn find(&self, from_msg: i32, from_user: i32, limit: Option<i64>) -> (r: ServiceResult<
        Vec<Message>,
    >) {
        let limit = match limit {
            Some(n) => n,
            None => DEFAULT_LIMIT,
        };
        match self.message_repository.find(from_msg, from_user, limit) {
            Ok(found) => Ok(found),
            Err(err) => Err(Error::storage(&err)),
        }
    }
}

} // verus!
