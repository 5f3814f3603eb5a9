//! How an application puts its services together.

use crate::model::message_service::{MessageService, MessageServiceImpl};
use crate::model::password::SimpleHasher;
use crate::model::repository::login_repository::InMemoryLoginRepository;
use crate::model::repository::message_repository::InMemoryMessageRepository;
use crate::model::repository::user_repository::InMemoryUserRepository;
use crate::model::user_service::{UserService, UserServiceImpl};
use vstd::prelude::*;

verus! {

/// An application makes the two services that its handlers work with.
pub trait App {
    type Users: UserService;

    type Messages: MessageService;

    fn user_service(&self) -> Self::Users;

    fn message_service(&self) -> Self::Messages;
}

/// An application whose services keep everything in memory and start empty.
pub struct TestApp;

impl App for TestApp {
    type Users = UserServiceImpl<InMemoryUserRepository, InMemoryLoginRepository, SimpleHasher>;

    type Messages = MessageServiceImpl<InMemoryMessageRepository>;

    fn user_service(&self) -> (r: Self::Users)
        ensures
            r.identities().len() == 0,
            r.sessions().len() == 0,
            r.reliable(),
            forall|secret: Seq<char>| #[trigger]
                r.digest(secret) == crate::model::password::upper_hex(
                    crate::model::password::sha256(vstd::utf8::encode_utf8(secret)),
                ),
    {
        UserServiceImpl::new(
            InMemoryUserRepository::new(),
            InMemoryLoginRepository::new(),
            SimpleHasher,
        )
    }

    fn message_service(&self) -> (r: Self::Messages)
        ensures
            r.messages().len() == 0,
            r.reliable(),
    {
        MessageServiceImpl::new(InMemoryMessageRepository::new())
    }
}

} // verus!
