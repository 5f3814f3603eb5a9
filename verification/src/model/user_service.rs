//! Registration, the lookup of an identity by its credentials, and the login
//! workflow that keeps one session per username.

use crate::model::error::{Error, ServiceResult};
use crate::model::login::{Login, LoginView, NewLogin, NewLoginView};
use crate::model::password::PasswordHasher;
use crate::model::repository::login_repository::LoginRepository;
use crate::model::repository::user_repository::UserRepository;
use crate::model::user::{NewUser, NewUserView, User, UserView};
use vstd::prelude::*;

verus! {

/// The identity that a username and a hashed secret make.
pub open spec fn new_user(username: Seq<char>, hashed_password: Seq<char>) -> NewUserView {
    NewUserView { username, hashed_password }
}

/// The session that a username and a token make.
pub open spec fn new_login(username: Seq<char>, token: Seq<char>) -> NewLoginView {
    NewLoginView { username, token }
}

/// Whether no session is of `username`.
pub open spec fn no_session_of(rows: Seq<LoginView>, username: Seq<char>) -> bool {
    forall|i: int| 0 <= i < rows.len() ==> (#[trigger] rows[i]).username != username
}

/// Whether `after` is what a login of `username` with `token` makes of
/// `before`: where the username has a session, the token of its first
/// session is overwritten, through the session's id; where it has none, a
/// session is inserted.
pub open spec fn logged_in(
    before: Seq<LoginView>,
    after: Seq<LoginView>,
    username: Seq<char>,
    token: Seq<char>,
) -> bool {
    ||| exists|i: int|
        #[trigger] crate::model::repository::login_repository::is_first_of(before, i, username)
            && after == crate::model::repository::login_repository::retokened(
            before,
            before[i].id,
            token,
        )
    ||| no_session_of(before, username)
        && crate::model::repository::login_repository::login_inserted(
        before,
        after,
        new_login(username, token),
    )
}

/// Whether no two sessions are of one username.
pub open spec fn one_session_per_username(rows: Seq<LoginView>) -> bool {
    forall|i: int, j: int| 0 <= i < j < rows.len() ==> rows[i].username != rows[j].username
}

/// A login keeps the sessions at one per username, and after it the one
/// session of the username holds the token of the login.
pub proof fn login_keeps_one_session_per_username(
    before: Seq<LoginView>,
    after: Seq<LoginView>,
    username: Seq<char>,
    token: Seq<char>,
)
    requires
        one_session_per_username(before),
        logged_in(before, after, username, token),
    ensures
        one_session_per_username(after),
        exists|i: int|
            #[trigger] crate::model::repository::login_repository::is_first_of(after, i, username)
                && after[i].token == token,
        forall|i: int|
            0 <= i < after.len() && (#[trigger] after[i]).username == username ==> after[i].token
                == token,
        forall|i: int, j: int|
            0 <= i < after.len() && 0 <= j < after.len() && (#[trigger] after[i]).username
                == username && (#[trigger] after[j]).username == username ==> i == j,
{
    if no_session_of(before, username)
        && crate::model::repository::login_repository::login_inserted(
        before,
        after,
        new_login(username, token),
    ) {
        let last = after.len() - 1;
        assert forall|i: int| 0 <= i < last implies (#[trigger] after[i]) == before[i] by {
            assert(after[i] == after.drop_last()[i]);
        }
        assert(crate::model::repository::login_repository::is_first_of(after, last, username));
    } else {
        let at = choose|i: int|
            #[trigger] crate::model::repository::login_repository::is_first_of(before, i, username)
                && after == crate::model::repository::login_repository::retokened(
                before,
                before[i].id,
                token,
            );
        assert forall|i: int| 0 <= i < after.len() implies (#[trigger] after[i]).username
            == before[i].username by {}
        assert(crate::model::repository::login_repository::is_first_of(after, at, username));
        assert forall|i: int|
            0 <= i < after.len() && (#[trigger] after[i]).username == username implies i
            == at by {
            if i < at {
                assert(before[i].username != before[at].username);
            } else if at < i {
                assert(before[at].username != before[i].username);
            }
        }
    }
}

/// The first row with the username and the token of a login, once the login
/// is made, is the session of the username: it keeps the id of the first
/// session that the username had, or has the next id of the store where the
/// username had none.
pub proof fn login_answers_with_the_session_of_the_username(
    before: Seq<LoginView>,
    after: Seq<LoginView>,
    username: Seq<char>,
    token: Seq<char>,
    i: int,
)
    requires
        logged_in(before, after, username, token),
        crate::model::repository::login_repository::is_first_with_key(after, i, username, token),
    ensures
        after[i].username == username,
        after[i].token == token,
        no_session_of(before, username) ==> after[i].id
            == crate::model::repository::login_repository::next_id(before),
        forall|j: int|
            #[trigger] crate::model::repository::login_repository::is_first_of(before, j, username)
                ==> after[i].id == before[j].id,
{
    if no_session_of(before, username)
        && crate::model::repository::login_repository::login_inserted(
        before,
        after,
        new_login(username, token),
    ) {
        let last = after.len() - 1;
        if i < last {
            assert(after[i] == after.drop_last()[i]);
            assert(before[i].username != username);
        }
        assert forall|j: int|
            #[trigger] crate::model::repository::login_repository::is_first_of(
                before,
                j,
                username,
            ) implies after[i].id == before[j].id by {
            assert(before[j].username != username);
        }
    } else {
        let at = choose|k: int|
            #[trigger] crate::model::repository::login_repository::is_first_of(before, k, username)
                && after == crate::model::repository::login_repository::retokened(
                before,
                before[k].id,
                token,
            );
        assert(before[at].username == username);
        assert(after[at].username == before[at].username);
        assert(after[i].username == before[i].username);
        assert(crate::model::repository::login_repository::has_key(after[at], username, token));
        if i < at {
            assert(before[i].username != username);
        }
        if at < i {
            assert(!crate::model::repository::login_repository::has_key(
                after[at],
                username,
                token,
            ));
        }
        assert(i == at);
        assert forall|j: int|
            #[trigger] crate::model::repository::login_repository::is_first_of(
                before,
                j,
                username,
            ) implies after[i].id == before[j].id by {
            if j < at {
                assert(before[j].username != username);
            }
            if at < j {
                assert(before[at].username != username);
            }
        }
    }
}

/// Two logins of one username in a row leave the one session that the first
/// left, with the token of the second.
pub proof fn second_login_overwrites_the_first(
    start: Seq<LoginView>,
    between: Seq<LoginView>,
    end: Seq<LoginView>,
    username: Seq<char>,
    first_token: Seq<char>,
    second_token: Seq<char>,
)
    requires
        one_session_per_username(start),
        logged_in(start, between, username, first_token),
        logged_in(between, end, username, second_token),
    ensures
        one_session_per_username(end),
        end.len() == between.len(),
        exists|i: int|
            #[trigger] crate::model::repository::login_repository::is_first_of(end, i, username)
                && end[i].token == second_token && end[i].id == between[i].id,
        forall|i: int, j: int|
            0 <= i < end.len() && 0 <= j < end.len() && (#[trigger] end[i]).username == username
                && (#[trigger] end[j]).username == username ==> i == j,
{
    login_keeps_one_session_per_username(start, between, username, first_token);
    login_keeps_one_session_per_username(between, end, username, second_token);
    let held = choose|i: int|
        #[trigger] crate::model::repository::login_repository::is_first_of(between, i, username)
            && between[i].token == first_token;
    assert(!no_session_of(between, username)) by {
        assert(between[held].username == username);
    }
    let at = choose|i: int|
        #[trigger] crate::model::repository::login_repository::is_first_of(between, i, username)
            && end == crate::model::repository::login_repository::retokened(
            between,
            between[i].id,
            second_token,
        );
    assert(end[at].username == between[at].username);
    assert forall|j: int| 0 <= j < at implies (#[trigger] end[j]).username != username by {
        assert(end[j].username == between[j].username);
    }
    assert(crate::model::repository::login_repository::is_first_of(end, at, username));
}

pub trait UserService {
    /// The registered identities, in the order in which they were inserted.
    /// A service that does not say what it holds leaves it open.
    open spec fn identities(&self) -> Seq<UserView> {
        arbitrary()
    }

    /// The sessions, in the order in which they were inserted. A service
    /// that does not say what it holds leaves it open.
    open spec fn sessions(&self) -> Seq<LoginView> {
        arbitrary()
    }

    /// The digest under which a secret is stored. A service that does not
    /// say which leaves it open.
    open spec fn digest(&self, secret: Seq<char>) -> Seq<char> {
        arbitrary()
    }

    /// Whether the stores behind this service fail only where they must. A
    /// service is taken to fail unless it says otherwise.
    open spec fn reliable(&self) -> bool {
        false
    }

    /// Creates a new user under the hash of the password and answers with the
    /// id of the first identity of the username. Only the store can make this
    /// fail, and then the identity may or may not have been stored; a
    /// reliable store with an id left does not fail.
    fn create_user(&mut self, username: String, password: String) -> (r: ServiceResult<i32>)
        ensures
            old(self).reliable() && crate::model::repository::user_repository::id_left(
                old(self).identities(),
            ) ==> r is Ok,
            final(self).sessions() == old(self).sessions(),
            final(self).reliable() == old(self).reliable(),
            forall|secret: Seq<char>| #[trigger]
                final(self).digest(secret) == old(self).digest(secret),
            match r {
                Ok(id) => crate::model::repository::user_repository::user_inserted(
                    old(self).identities(),
                    final(self).identities(),
                    new_user(username@, old(self).digest(password@)),
                ) && exists|i: int|
                    #[trigger] crate::model::repository::user_repository::is_first_named(
                        final(self).identities(),
                        i,
                        username@,
                    ) && final(self).identities()[i].id == id,
                Err(e) => e is StorageError && (final(self).identities() == old(self).identities()
                    || crate::model::repository::user_repository::user_inserted(
                    old(self).identities(),
                    final(self).identities(),
                    new_user(username@, old(self).digest(password@)),
                )),
            },
    ;

    /// Finds the first identity whose username and password match. That
    /// there is none is the error `InvalidCredentialsError`, which does not
    /// tell an unknown username from a wrong password.
    fn find_user(&self, username: String, password: String) -> (r: ServiceResult<User>)
        ensures
            match r {
                Ok(user) => exists|i: int|
                    #[trigger] crate::model::repository::user_repository::is_first_match(
                        self.identities(),
                        i,
                        username@,
                        self.digest(password@),
                    ) && self.identities()[i] == user@,
                Err(e) => {
                    &&& e is InvalidCredentialsError || e is StorageError
                    &&& self.reliable() ==> e is InvalidCredentialsError
                    &&& e is InvalidCredentialsError
                        ==> crate::model::repository::user_repository::no_match(
                        self.identities(),
                        username@,
                        self.digest(password@),
                    )
                },
            },
    ;

    /// Creates or updates the session of a user: the token becomes the one
    /// current token of the user's username. Only the store can make this
    /// fail, and then the token may or may not have been written; a reliable
    /// store does not fail, unless the session is new and no id is left.
    ///
    /// The lookup of the session and the write are two steps of the store,
    /// not one. The service has the store to itself while it works, so no
    /// other login comes between them; a store that is shared without that
    /// can take two first logins of one username as two sessions.
    fn login(&mut self, user: &User, token: String) -> (r: ServiceResult<Login>)
        ensures
            old(self).reliable() && (no_session_of(old(self).sessions(), user@.username)
                ==> crate::model::repository::login_repository::id_left(old(self).sessions()))
                ==> r is Ok,
            final(self).identities() == old(self).identities(),
            final(self).reliable() == old(self).reliable(),
            forall|secret: Seq<char>| #[trigger]
                final(self).digest(secret) == old(self).digest(secret),
            match r {
                Ok(session) => {
                    &&& logged_in(
                        old(self).sessions(),
                        final(self).sessions(),
                        user@.username,
                        token@,
                    )
                    &&& exists|i: int|
                        #[trigger] crate::model::repository::login_repository::is_first_with_key(
                            final(self).sessions(),
                            i,
                            user@.username,
                            token@,
                        ) && final(self).sessions()[i] == session@
                    &&& session@.username == user@.username
                    &&& session@.token == token@
                    &&& no_session_of(old(self).sessions(), user@.username) ==> session@.id
                        == crate::model::repository::login_repository::next_id(
                        old(self).sessions(),
                    )
                    &&& forall|j: int|
                        #[trigger] crate::model::repository::login_repository::is_first_of(
                            old(self).sessions(),
                            j,
                            user@.username,
                        ) ==> session@.id == old(self).sessions()[j].id
                },
                Err(e) => e is StorageError && (final(self).sessions() == old(self).sessions()
                    || logged_in(
                    old(self).sessions(),
                    final(self).sessions(),
                    user@.username,
                    token@,
                )),
            },
    ;

    /// Counts the registered identities.
    fn total(&self) -> (r: ServiceResult<i64>)
        ensures
            self.reliable() && self.identities().len() <= i64::MAX ==> r is Ok,
            match r {
                Ok(n) => n == self.identities().len(),
                Err(e) => e is StorageError,
            },
    ;
}

pub struct UserServiceImpl<UserRepo, LoginRepo, PwdHash> {
    user_repository: UserRepo,
    login_repository: LoginRepo,
    password_hasher: PwdHash,
}

impl<UserRepo, LoginRepo, PwdHash> UserServiceImpl<UserRepo, LoginRepo, PwdHash> where
    UserRepo: UserRepository,
    LoginRepo: LoginRepository,
    PwdHash: PasswordHasher,
 {
    pub fn new(
        user_repository: UserRepo,
        login_repository: LoginRepo,
        password_hasher: PwdHash,
    ) -> (r: Self)
        ensures
            r.identities() == user_repository.users(),
            r.sessions() == login_repository.logins(),
            r.reliable() == (user_repository.reliable() && login_repository.reliable()),
            forall|secret: Seq<char>| #[trigger] r.digest(secret) == password_hasher.digest(secret),
    {
        UserServiceImpl { user_repository, login_repository, password_hasher }
    }
}

impl<UserRepo, LoginRepo, PwdHash> UserService for UserServiceImpl<
    UserRepo,
    LoginRepo,
    PwdHash,
> where UserRepo: UserRepository, LoginRepo: LoginRepository, PwdHash: PasswordHasher {
    closed spec fn identities(&self) -> Seq<UserView> {
        self.user_repository.users()
    }

    closed spec fn sessions(&self) -> Seq<LoginView> {
        self.login_repository.logins()
    }

    closed spec fn digest(&self, secret: Seq<char>) -> Seq<char> {
        self.password_hasher.digest(secret)
    }

    closed spec fn reliable(&self) -> bool {
        self.user_repository.reliable() && self.login_repository.reliable()
    }

    fn create_user(&mut self, username: String, password: String) -> (r: ServiceResult<i32>) {
        let hashed = self.password_hasher.hash(password.as_str());
        let new_user = NewUser::new(username, hashed);
        match self.user_repository.add(new_user) {
            Ok(id) => Ok(id),
            Err(err) => Err(Error::storage(&err)),
        }
    }

    fn find_user(&self, username: String, password: String) -> (r: ServiceResult<User>) {
        let hashed = self.password_hasher.hash(password.as_str());
        let search_user = NewUser::new(username, hashed);
        match self.user_repository.find(search_user.get_username(), search_user.get_password()) {
            Ok(user) => {
                proof {
                    let i = choose|i: int|
                        #[trigger] crate::model::repository::user_repository::is_first_match(
                            self.user_repository.users(),
                            i,
                            username@,
                            hashed@,
                        ) && self.user_repository.users()[i] == user@;
                    assert(crate::model::repository::user_repository::is_first_match(
                        self.identities(),
                        i,
                        username@,
                        self.digest(password@),
                    ));
                }
                Ok(user)
            },
            Err(crate::model::repository::error::Error::NotFound) => Err(
                Error::InvalidCredentialsError,
            ),
            Err(err) => Err(Error::storage(&err)),
        }
    }

    fn login(&mut self, user: &User, token: String) -> (r: ServiceResult<Login>) {
        let new_login = NewLogin::new(user.get_username(), token);
        let ghost wanted = new_login@;
        match self.login_repository.find(user.get_username()) {
            Ok(Some(login)) => {
                let ghost old_login = login@;
                let mut login = login;
                match login.update(&new_login) {
                    Ok(()) => {},
                    Err(_) => {
                        return Err(Error::UsernameMismatchError);
                    },
                }
                let ghost found = login@;
                let outcome = self.login_repository.update(&login);
                proof {
                    let before = old(self).login_repository.logins();
                    let at = choose|i: int|
                        #[trigger] crate::model::repository::login_repository::is_first_of(
                            before,
                            i,
                            user@.username,
                        ) && before[i] == old_login;
                    let after = crate::model::repository::login_repository::retokened(
                        before,
                        found.id,
                        token@,
                    );
                    assert(crate::model::repository::login_repository::has_key(
                        after[at],
                        user@.username,
                        token@,
                    ));
                }
                match outcome {
                    Ok(updated) => {
                        proof {
                            let rows = self.login_repository.logins();
                            let i = choose|i: int|
                                #[trigger]
                                crate::model::repository::login_repository::is_first_with_key(
                                    rows,
                                    i,
                                    found.username,
                                    found.token,
                                ) && rows[i] == updated@;
                            login_answers_with_the_session_of_the_username(
                                old(self).sessions(),
                                self.sessions(),
                                user@.username,
                                wanted.token,
                                i,
                            );
                        }
                        Ok(updated)
                    },
                    Err(err) => Err(Error::storage(&err)),
                }
            },
            Ok(None) => match self.login_repository.add(new_login) {
                Ok(added) => {
                    proof {
                        let i = choose|i: int|
                            #[trigger]
                            crate::model::repository::login_repository::is_first_with_key(
                                self.login_repository.logins(),
                                i,
                                wanted.username,
                                wanted.token,
                            ) && self.login_repository.logins()[i] == added@;
                        login_answers_with_the_session_of_the_username(
                            old(self).sessions(),
                            self.sessions(),
                            user@.username,
                            wanted.token,
                            i,
                        );
                    }
                    Ok(added)
                },
                Err(err) => Err(Error::storage(&err)),
            },
            Err(err) => Err(Error::storage(&err)),
        }
    }

    fn total(&self) -> (r: ServiceResult<i64>) {
        match self.user_repository.total() {
            Ok(n) => Ok(n),
            Err(err) => Err(Error::storage(&err)),
        }
    }
}

} // verus!
