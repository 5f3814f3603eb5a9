//! Sessions: the one current bearer token of a username.

use vstd::prelude::*;
use vstd::string::*;

verus! {

/// What a stored session is, as plain values.
pub struct LoginView {
    pub id: i32,
    pub username: Seq<char>,
    pub token: Seq<char>,
}

/// What a session that is not stored yet is, as plain values.
pub struct NewLoginView {
    pub username: Seq<char>,
    pub token: Seq<char>,
}

/// The session of a username, as the credential store holds it.
pub struct Login {
    id: i32,
    username: String,
    token: String,
}

impl View for Login {
    type V = LoginView;

    closed spec fn view(&self) -> LoginView {
        LoginView { id: self.id, username: self.username@, token: self.token@ }
    }
}

impl Clone for Login {
    fn clone(&self) -> (r: Self)
        ensures
            r@ == self@,
    {
        Login { id: self.id, username: self.username.clone(), token: self.token.clone() }
    }
}

impl Login {
    /// Puts a stored session together from its three columns.
    pub fn from_parts(id: i32, username: String, token: String) -> (r: Login)
        ensures
            r@ == (LoginView { id, username: username@, token: token@ }),
    {
        Login { id, username, token }
    }

    pub fn get_id(&self) -> (r: i32)
        ensures
            r == self@.id,
    {
        self.id
    }

    pub fn get_username(&self) -> (r: String)
        ensures
            r@ == self@.username,
    {
        self.username.clone()
    }

    pub fn get_token(&self) -> (r: String)
        ensures
            r@ == self@.token,
    {
        self.token.clone()
    }

    /// Takes over the token of `login`, which must be a login of the same
    /// username; of another username nothing is taken.
    pub fn update(&mut self, login: &NewLogin) -> (r: Result<(), String>)
        ensures
            old(self)@.username == login@.username ==> r is Ok && final(self)@ == (LoginView {
                token: login@.token,
                ..old(self)@
            }),
            old(self)@.username != login@.username ==> r is Err && r->Err_0@
                == "Username doesn't match"@ && final(self)@ == old(self)@,
    {
        if self.username != login.username {
            return Err(String::from_str("Username doesn't match"));
        }
        self.token = login.token.clone();
        Ok(())
    }
}

/// A session on its way into the credential store: it has no id yet.
pub struct NewLogin {
    username: String,
    token: String,
}

impl View for NewLogin {
    type V = NewLoginView;

    closed spec fn view(&self) -> NewLoginView {
        NewLoginView { username: self.username@, token: self.token@ }
    }
}

impl NewLogin {
    pub fn new(the_username: String, the_token: String) -> (r: NewLogin)
        ensures
            r@ == (NewLoginView { username: the_username@, token: the_token@ }),
    {
        NewLogin { username: the_username, token: the_token }
    }

    pub fn get_username(&self) -> (r: String)
        ensures
            r@ == self@.username,
    {
        self.username.clone()
    }

    pub fn get_token(&self) -> (r: String)
        ensures
            r@ == self@.token,
    {
        self.token.clone()
    }
}

/// Builds a session field by field. An id that is not given is 0; the
/// username and the token must be given before the build.
pub struct Builder {
    id: Option<i32>,
    username: Option<String>,
    token: Option<String>,
}

impl Builder {
    /// The id given so far.
    pub closed spec fn id(&self) -> Option<i32> {
        self.id
    }

    /// The username given so far.
    pub closed spec fn username(&self) -> Option<Seq<char>> {
        match self.username {
            Some(text) => Some(text@),
            None => None,
        }
    }

    /// The token given so far.
    pub closed spec fn token(&self) -> Option<Seq<char>> {
        match self.token {
            Some(text) => Some(text@),
            None => None,
        }
    }

    pub fn new() -> (r: Self)
        ensures
            r.id() is None,
            r.username() is None,
            r.token() is None,
    {
        Builder { id: None, username: None, token: None }
    }

    pub fn with_id(self, the_id: i32) -> (r: Builder)
        ensures
            r.id() == Some(the_id),
            r.username() == self.username(),
            r.token() == self.token(),
    {
        Builder { id: Some(the_id), username: self.username, token: self.token }
    }

    pub fn with_username(self, name: &str) -> (r: Builder)
        ensures
            r.username() == Some(name@),
            r.id() == self.id(),
            r.token() == self.token(),
    {
        Builder { id: self.id, username: Some(String::from_str(name)), token: self.token }
    }

    pub fn with_token(self, the_token: &str) -> (r: Builder)
        ensures
            r.token() == Some(the_token@),
            r.id() == self.id(),
            r.username() == self.username(),
    {
        Builder { id: self.id, username: self.username, token: Some(String::from_str(the_token)) }
    }

    pub fn build(&self) -> (r: Login)
        requires
            self.username() is Some,
            self.token() is Some,
        ensures
            r@ == (LoginView {
                id: match self.id() {
                    Some(value) => value,
                    None => 0,
                },
                username: self.username()->0,
                token: self.token()->0,
            }),
    {
        let id: i32 = match self.id {
            Some(value) => value,
            None => 0,
        };
        let username = match &self.username {
            Some(value) => value.clone(),
            None => String::new(),
        };
        let token = match &self.token {
            Some(value) => value.clone(),
            None => String::new(),
        };
        Login::from_parts(id, username, token)
    }
}

} // verus!
