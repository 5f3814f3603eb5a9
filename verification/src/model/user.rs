//! Identities: registered accounts with a username and a hashed secret.

use vstd::prelude::*;
use vstd::string::*;

verus! {

/// What a stored identity is, as plain values.
pub struct UserView {
    pub id: i32,
    pub username: Seq<char>,
    pub hashed_password: Seq<char>,
}

/// What an identity that is not stored yet is, as plain values.
pub struct NewUserView {
    pub username: Seq<char>,
    pub hashed_password: Seq<char>,
}

/// A registered identity, as the credential store holds it.
pub struct User {
    id: i32,
    username: String,
    hashed_password: String,
}

impl View for User {
    type V = UserView;

    closed spec fn view(&self) -> UserView {
        UserView {
            id: self.id,
            username: self.username@,
            hashed_password: self.hashed_password@,
        }
    }
}

impl Clone for User {
    fn clone(&self) -> (r: Self)
        ensures
            r@ == self@,
    {
        User {
            id: self.id,
            username: self.username.clone(),
            hashed_password: self.hashed_password.clone(),
        }
    }
}

impl User {
    /// Puts a stored identity together from its three columns.
    pub fn from_parts(id: i32, username: String, hashed_password: String) -> (r: User)
        ensures
            r@ == (UserView { id, username: username@, hashed_password: hashed_password@ }),
    {
        User { id, username, hashed_password }
    }

    pub fn get_id(&self) -> (r: i32)
        ensures
            r == self@.id,
    {
        self.id
    }

    pub fn get_username(&self) -> (r: String)
        ensures
            r@ == self@.username,
    {
        self.username.clone()
    }

    pub fn get_hashed_password(&self) -> (r: String)
        ensures
            r@ == self@.hashed_password,
    {
        self.hashed_password.clone()
    }
}

/// An identity on its way into the credential store: it has no id yet.
pub struct NewUser {
    username: String,
    hashed_password: String,
}

impl View for NewUser {
    type V = NewUserView;

    closed spec fn view(&self) -> NewUserView {
        NewUserView { username: self.username@, hashed_password: self.hashed_password@ }
    }
}

impl NewUser {
    pub fn new(the_username: String, the_hashed_password: String) -> (r: NewUser)
        ensures
            r@ == (NewUserView {
                username: the_username@,
                hashed_password: the_hashed_password@,
            }),
    {
        NewUser { username: the_username, hashed_password: the_hashed_password }
    }

    pub fn get_username(&self) -> (r: String)
        ensures
            r@ == self@.username,
    {
        self.username.clone()
    }

    pub fn get_password(&self) -> (r: String)
        ensures
            r@ == self@.hashed_password,
    {
        self.hashed_password.clone()
    }
}

/// Builds an identity field by field. An id that is not given is 0; the
/// username and the hashed password must be given before the build.
pub struct Builder {
    id: Option<i32>,
    username: Option<String>,
    hashed_password: Option<String>,
}

impl Builder {
    /// The id given so far.
    pub closed spec fn id(&self) -> Option<i32> {
        self.id
    }

    /// The username given so far.
    pub closed spec fn username(&self) -> Option<Seq<char>> {
        match self.username {
            Some(text) => Some(text@),
            None => None,
        }
    }

    /// The hashed password given so far.
    pub closed spec fn hashed_password(&self) -> Option<Seq<char>> {
        match self.hashed_password {
            Some(text) => Some(text@),
            None => None,
        }
    }

    pub fn new() -> (r: Self)
        ensures
            r.id() is None,
            r.username() is None,
            r.hashed_password() is None,
    {
        Builder { id: None, username: None, hashed_password: None }
    }

    pub fn with_id(self, id: i32) -> (r: Builder)
        ensures
            r.id() == Some(id),
            r.username() == self.username(),
            r.hashed_password() == self.hashed_password(),
    {
        Builder { id: Some(id), username: self.username, hashed_password: self.hashed_password }
    }

    pub fn with_username(self, name: &str) -> (r: Builder)
        ensures
            r.username() == Some(name@),
            r.id() == self.id(),
            r.hashed_password() == self.hashed_password(),
    {
        Builder {
            id: self.id,
            username: Some(String::from_str(name)),
            hashed_password: self.hashed_password,
        }
    }

    pub fn with_hashed_password(self, hashed_password: &str) -> (r: Builder)
        ensures
            r.hashed_password() == Some(hashed_password@),
            r.id() == self.id(),
            r.username() == self.username(),
    {
        Builder {
            id: self.id,
            username: self.username,
            hashed_password: Some(String::from_str(hashed_password)),
        }
    }

    pub fn build(&self) -> (r: User)
        requires
            self.username() is Some,
            self.hashed_password() is Some,
        ensures
            r@ == (UserView {
                id: match self.id() {
                    Some(value) => value,
                    None => 0,
                },
                username: self.username()->0,
                hashed_password: self.hashed_password()->0,
            }),
    {
        let id: i32 = match self.id {
            Some(value) => value,
            None => 0,
        };
        let username = match &self.username {
            Some(value) => value.clone(),
            None => String::new(),
        };
        let hashed_password = match &self.hashed_password {
            Some(value) => value.clone(),
            None => String::new(),
        };
        User::from_parts(id, username, hashed_password)
    }
}

} // verus!
