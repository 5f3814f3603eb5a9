//! The session store: insert, find by username, and update of a token.

use crate::model::login::{Login, LoginView, NewLogin, NewLoginView};
use crate::model::repository::error::{Error, RepoResult};
use vstd::prelude::*;
use vstd::string::*;

verus! {

/// The rows of a store as plain values.
pub open spec fn login_views(rows: Seq<Login>) -> Seq<LoginView> {
    rows.map_values(|login: Login| login@)
}

/// The row that stands for `login` once it is stored under `id`.
pub open spec fn stored_login(login: NewLoginView, id: i32) -> LoginView {
    LoginView { id, username: login.username, token: login.token }
}

/// The id that a store gives its next row: 1 in a store without rows, and
/// one more than the greatest id where that is more.
pub open spec fn next_id(rows: Seq<LoginView>) -> int
    decreases rows.len(),
{
    if rows.len() == 0 {
        1
    } else {
        let before = next_id(rows.drop_last());
        if rows.last().id >= before {
            rows.last().id + 1
        } else {
            before
        }
    }
}

/// Whether `after` is `before` with `login` inserted at the end, under the
/// next id, which is greater than every id before.
pub open spec fn login_inserted(
    before: Seq<LoginView>,
    after: Seq<LoginView>,
    login: NewLoginView,
) -> bool {
    &&& after.len() == before.len() + 1
    &&& after.drop_last() == before
    &&& after.last() == stored_login(login, after.last().id)
    &&& after.last().id == next_id(before)
    &&& forall|i: int| 0 <= i < before.len() ==> before[i].id < after.last().id
}

/// Whether an id is left for one more row: no id is the greatest that there
/// is.
pub open spec fn id_left(rows: Seq<LoginView>) -> bool {
    forall|i: int| 0 <= i < rows.len() ==> (#[trigger] rows[i]).id < i32::MAX
}

/// Whether a row has the given username and token.
pub open spec fn has_key(row: LoginView, username: Seq<char>, token: Seq<char>) -> bool {
    row.username == username && row.token == token
}

/// Whether no row has the given username and token.
pub open spec fn no_key(rows: Seq<LoginView>, username: Seq<char>, token: Seq<char>) -> bool {
    forall|i: int| 0 <= i < rows.len() ==> !has_key(#[trigger] rows[i], username, token)
}

/// Whether the row at `i` is the first session of `username`.
pub open spec fn is_first_of(rows: Seq<LoginView>, i: int, username: Seq<char>) -> bool {
    &&& 0 <= i < rows.len()
    &&& rows[i].username == username
    &&& forall|j: int| 0 <= j < i ==> (#[trigger] rows[j]).username != username
}

/// Whether the row at `i` is the first with the natural key of a session:
/// its username and its token.
pub open spec fn is_first_with_key(
    rows: Seq<LoginView>,
    i: int,
    username: Seq<char>,
    token: Seq<char>,
) -> bool {
    &&& 0 <= i < rows.len()
    &&& has_key(rows[i], username, token)
    &&& forall|j: int| 0 <= j < i ==> !has_key(#[trigger] rows[j], username, token)
}

/// The rows with the token of every session of the id `id` replaced.
pub open spec fn retokened(rows: Seq<LoginView>, id: i32, token: Seq<char>) -> Seq<LoginView> {
    rows.map_values(
        |row: LoginView|
            if row.id == id {
                LoginView { token, ..row }
            } else {
                row
            },
    )
}

/// The answer of a lookup by username to the outcome of reading the first
/// matching row: that no row matches is an answer, no error, and every other
/// failure stays one.
pub fn found_or_none(found: RepoResult<Login>) -> (r: RepoResult<Option<Login>>)
    ensures
        match found {
            Ok(login) => r matches Ok(Some(same)) && same@ == login@,
            Err(Error::NotFound) => r matches Ok(None),
            Err(e) => r matches Err(same) && same.message() == e.message() && !(same is NotFound),
        },
{
    match found {
        Ok(login) => Ok(Some(login)),
        Err(Error::NotFound) => Ok(None),
        Err(e) => Err(e),
    }
}

pub trait LoginRepository {
    /// The stored sessions, in the order in which they were inserted. A
    /// store that does not say what it holds leaves it open.
    open spec fn logins(&self) -> Seq<LoginView> {
        arbitrary()
    }

    /// Whether this store fails only where it must: a reliable store answers
    /// every read but for a missing row, and takes every insert while an id
    /// is left. A store is taken to fail unless it says otherwise.
    open spec fn reliable(&self) -> bool {
        false
    }

    /// Inserts a session under the next id, which is 1 in a store without
    /// rows and else one more than the greatest, and answers with the first
    /// row of its username and token. Where the store fails, the session may
    /// or may not have been stored.
    fn add(&mut self, new_login: NewLogin) -> (r: RepoResult<Login>)
        ensures
            final(self).reliable() == old(self).reliable(),
            old(self).reliable() && id_left(old(self).logins()) ==> r is Ok,
            match r {
                Ok(login) => login_inserted(old(self).logins(), final(self).logins(), new_login@)
                    && exists|i: int|
                    #[trigger] is_first_with_key(
                        final(self).logins(),
                        i,
                        new_login@.username,
                        new_login@.token,
                    ) && final(self).logins()[i] == login@,
                Err(_) => final(self).logins() == old(self).logins() || login_inserted(
                    old(self).logins(),
                    final(self).logins(),
                    new_login@,
                ),
            },
    ;

    /// Looks for the first session of a username. That there is none is an
    /// answer, no error.
    fn find(&self, the_username: String) -> (r: RepoResult<Option<Login>>)
        ensures
            match r {
                Ok(Some(login)) => exists|i: int|
                    #[trigger] is_first_of(self.logins(), i, the_username@) && self.logins()[i]
                        == login@,
                Ok(None) => forall|i: int|
                    0 <= i < self.logins().len() ==> (#[trigger] self.logins()[i]).username
                        != the_username@,
                Err(e) => !(e is NotFound) && !self.reliable(),
            },
    ;

    /// Writes the token of `login` to the sessions of its id and answers with
    /// the first row of its username and token. Where the store fails, the
    /// token may or may not have been written; a reliable store fails only
    /// where no row has the username and the token once the token is written.
    fn update(&mut self, login: &Login) -> (r: RepoResult<Login>)
        ensures
            final(self).reliable() == old(self).reliable(),
            old(self).reliable() && r is Err ==> final(self).logins() == retokened(
                old(self).logins(),
                login@.id,
                login@.token,
            ) && no_key(final(self).logins(), login@.username, login@.token),
            match r {
                Ok(updated) => final(self).logins() == retokened(
                    old(self).logins(),
                    login@.id,
                    login@.token,
                ) && exists|i: int|
                    #[trigger] is_first_with_key(
                        final(self).logins(),
                        i,
                        login@.username,
                        login@.token,
                    ) && final(self).logins()[i] == updated@,
                Err(_) => final(self).logins() == old(self).logins() || final(self).logins()
                    == retokened(old(self).logins(), login@.id, login@.token),
            },
    ;
}

/// A session store that keeps its rows in memory.
pub struct InMemoryLoginRepository {
    rows: Vec<Login>,
}

impl InMemoryLoginRepository {
    pub fn new() -> (r: InMemoryLoginRepository)
        ensures
            r.logins() == Seq::<LoginView>::empty(),
            r.reliable(),
    {
        let r = InMemoryLoginRepository { rows: Vec::new() };
        assert(login_views(r.rows@) =~= Seq::<LoginView>::empty());
        r
    }

    /// Looks for the first session with a username and a token.
    pub fn find_by_natural_key(&self, the_username: String, the_token: String) -> (r: RepoResult<
        Login,
    >)
        ensures
            match r {
                Ok(login) => exists|i: int|
                    #[trigger] is_first_with_key(self.logins(), i, the_username@, the_token@)
                        && self.logins()[i] == login@,
                Err(e) => e is NotFound && no_key(self.logins(), the_username@, the_token@),
            },
    {
        let mut i: usize = 0;
        while i < self.rows.len()
            invariant
                i <= self.rows@.len(),
                forall|j: int|
                    0 <= j < i ==> !has_key(#[trigger] self.logins()[j], the_username@, the_token@),
            decreases self.rows@.len() - i,
        {
            if self.rows[i].get_username() == the_username && self.rows[i].get_token()
                == the_token {
                let found = self.rows[i].clone();
                assert(is_first_with_key(self.logins(), i as int, the_username@, the_token@));
                return Ok(found);
            }
            i += 1;
        }
        Err(Error::NotFound)
    }

    /// The id of the next row, or `None` where no greater id is left.
    fn next_row_id(&self) -> (r: Option<i32>)
        ensures
            r is Some <==> id_left(self.logins()),
            r matches Some(id) ==> id == next_id(self.logins()) && forall|i: int|
                0 <= i < self.logins().len() ==> (#[trigger] self.logins()[i]).id < id,
    {
        let ghost rows = self.logins();
        let mut id: i32 = 1;
        let mut i: usize = 0;
        while i < self.rows.len()
            invariant
                i <= self.rows@.len(),
                rows == self.logins(),
                id >= 1,
                id == next_id(rows.subrange(0, i as int)),
                forall|j: int| 0 <= j < i ==> (#[trigger] rows[j]).id < id,
            decreases self.rows@.len() - i,
        {
            let here = self.rows[i].get_id();
            proof {
                let upto = rows.subrange(0, i + 1);
                assert(upto.drop_last() =~= rows.subrange(0, i as int));
                assert(upto.last() == rows[i as int]);
            }
            if here == i32::MAX {
                assert(rows[i as int].id == i32::MAX);
                return None;
            }
            if here >= id {
                id = here + 1;
            }
            i += 1;
        }
        assert(rows.subrange(0, i as int) =~= rows);
        Some(id)
    }
}

impl LoginRepository for InMemoryLoginRepository {
    closed spec fn logins(&self) -> Seq<LoginView> {
        login_views(self.rows@)
    }

    open spec fn reliable(&self) -> bool {
        true
    }

    /// Fails, and stores nothing, only where no greater id is left.
    fn add(&mut self, new_login: NewLogin) -> (r: RepoResult<Login>)
        ensures
            r is Ok <==> id_left(old(self).logins()),
            r is Err ==> final(self).logins() == old(self).logins(),
    {
        let id = match self.next_row_id() {
            Some(id) => id,
            None => {
                return Err(Error::DieselError(String::from_str("the ids are used up")));
            },
        };
        let row = Login::from_parts(id, new_login.get_username(), new_login.get_token());
        let ghost before = self.rows@;
        assert(login_views(before.push(row)) =~= login_views(before).push(row@));
        self.rows.push(row);
        assert(self.logins().drop_last() =~= old(self).logins());
        let found = self.find_by_natural_key(new_login.get_username(), new_login.get_token());
        assert(has_key(self.logins().last(), new_login@.username, new_login@.token));
        found
    }

    fn find(&self, the_username: String) -> (r: RepoResult<Option<Login>>) {
        let mut i: usize = 0;
        while i < self.rows.len()
            invariant
                i <= self.rows@.len(),
                forall|j: int| 0 <= j < i ==> (#[trigger] self.logins()[j]).username
                    != the_username@,
            decreases self.rows@.len() - i,
        {
            if self.rows[i].get_username() == the_username {
                let found = self.rows[i].clone();
                assert(is_first_of(self.logins(), i as int, the_username@));
                return Ok(Some(found));
            }
            i += 1;
        }
        Ok(None)
    }

    /// Fails only where no session has the username and the token of `login`
    /// once the token is written.
    fn update(&mut self, login: &Login) -> (r: RepoResult<Login>)
        ensures
            final(self).logins() == retokened(old(self).logins(), login@.id, login@.token),
            r matches Err(e) ==> e is NotFound,
    {
        let ghost before = self.logins();
        let n = self.rows.len();
        let mut i: usize = 0;
        while i < n
            invariant
                i <= n,
                n == self.rows@.len(),
                before.len() == n,
                forall|j: int|
                    0 <= j < i ==> (#[trigger] self.logins()[j]) == retokened(
                        before,
                        login@.id,
                        login@.token,
                    )[j],
                forall|j: int| i <= j < n ==> (#[trigger] self.logins()[j]) == before[j],
            decreases n - i,
        {
            let ghost prev = self.rows@;
            assert(self.logins()[i as int] == before[i as int]);
            if self.rows[i].get_id() == login.get_id() {
                let row = Login::from_parts(
                    login.get_id(),
                    self.rows[i].get_username(),
                    login.get_token(),
                );
                self.rows.set(i, row);
            }
            proof {
                let now = self.logins();
                let goal = retokened(before, login@.id, login@.token);
                assert(now.len() == n);
                assert forall|j: int| 0 <= j < i + 1 implies now[j] == goal[j] by {
                    if j < i {
                        assert(now[j] == login_views(prev)[j]);
                    } else {
                        assert(login_views(prev)[j] == before[j]);
                    }
                }
                assert forall|j: int| i + 1 <= j < n implies now[j] == before[j] by {
                    assert(now[j] == login_views(prev)[j]);
                }
            }
            i += 1;
        }
        assert(self.logins() =~= retokened(before, login@.id, login@.token));
        self.find_by_natural_key(login.get_username(), login.get_token())
    }
}

} // verus!
