//! The identity store: insert, find by username and hashed secret, and count.

use crate::model::repository::error::{Error, RepoResult};
use crate::model::user::{NewUser, NewUserView, User, UserView};
use vstd::prelude::*;
use vstd::string::*;

verus! {

/// The rows of a store as plain values.
pub open spec fn user_views(rows: Seq<User>) -> Seq<UserView> {
    rows.map_values(|user: User| user@)
}

/// The row that stands for `user` once it is stored under `id`.
pub open spec fn stored_user(user: NewUserView, id: i32) -> UserView {
    UserView { id, username: user.username, hashed_password: user.hashed_password }
}

/// The id that a store gives its next row: 1 in a store without rows, and
/// one more than the greatest id where that is more.
pub open spec fn next_id(rows: Seq<UserView>) -> int
    decreases rows.len(),
{
    if rows.len() == 0 {
        1
    } else {
        let before = next_id(rows.drop_last());
        if rows.last().id >= before {
            rows.last().id + 1
        } else {
            before
        }
    }
}

/// Whether `after` is `before` with `user` inserted at the end, under the
/// next id, which is greater than every id before.
pub open spec fn user_inserted(
    before: Seq<UserView>,
    after: Seq<UserView>,
    user: NewUserView,
) -> bool {
    &&& after.len() == before.len() + 1
    &&& after.drop_last() == before
    &&& after.last() == stored_user(user, after.last().id)
    &&& after.last().id == next_id(before)
    &&& forall|i: int| 0 <= i < before.len() ==> before[i].id < after.last().id
}

/// Whether an id is left for one more row: no id is the greatest that there
/// is.
pub open spec fn id_left(rows: Seq<UserView>) -> bool {
    forall|i: int| 0 <= i < rows.len() ==> (#[trigger] rows[i]).id < i32::MAX
}

/// Whether the row at `i` is the first identity of `username`.
pub open spec fn is_first_named(rows: Seq<UserView>, i: int, username: Seq<char>) -> bool {
    &&& 0 <= i < rows.len()
    &&& rows[i].username == username
    &&& forall|j: int| 0 <= j < i ==> (#[trigger] rows[j]).username != username
}

/// Whether a row has the given username and hashed secret.
pub open spec fn has_credentials(row: UserView, username: Seq<char>, password: Seq<char>) -> bool {
    row.username == username && row.hashed_password == password
}

/// Whether the row at `i` is the first with the given username and hashed
/// secret.
pub open spec fn is_first_match(
    rows: Seq<UserView>,
    i: int,
    username: Seq<char>,
    password: Seq<char>,
) -> bool {
    &&& 0 <= i < rows.len()
    &&& has_credentials(rows[i], username, password)
    &&& forall|j: int| 0 <= j < i ==> !has_credentials(#[trigger] rows[j], username, password)
}

/// Whether no row has the given username and hashed secret.
pub open spec fn no_match(rows: Seq<UserView>, username: Seq<char>, password: Seq<char>) -> bool {
    forall|i: int| 0 <= i < rows.len() ==> !has_credentials(#[trigger] rows[i], username, password)
}

pub trait UserRepository {
    /// The stored identities, in the order in which they were inserted. A
    /// store that does not say what it holds leaves it open.
    open spec fn users(&self) -> Seq<UserView> {
        arbitrary()
    }

    /// Whether this store fails only where it must: a reliable store answers
    /// every read but for a missing row, and takes every insert while an id
    /// is left. A store is taken to fail unless it says otherwise.
    open spec fn reliable(&self) -> bool {
        false
    }

    /// Inserts an identity under the next id, which is 1 in a store without
    /// rows and else one more than the greatest, and answers with the id of
    /// the first identity of its username. The store checks no username for
    /// uniqueness. Where the store fails, the identity may or may not have
    /// been stored.
    fn add(&mut self, new_user: NewUser) -> (r: RepoResult<i32>)
        ensures
            final(self).reliable() == old(self).reliable(),
            old(self).reliable() && id_left(old(self).users()) ==> r is Ok,
            match r {
                Ok(id) => user_inserted(old(self).users(), final(self).users(), new_user@)
                    && exists|i: int|
                    #[trigger] is_first_named(final(self).users(), i, new_user@.username)
                        && final(self).users()[i].id == id,
                Err(_) => final(self).users() == old(self).users() || user_inserted(
                    old(self).users(),
                    final(self).users(),
                    new_user@,
                ),
            },
    ;

    /// Looks for the first identity with a username and a hashed secret.
    /// `NotFound` says that there is none.
    fn find(&self, the_username: String, password: String) -> (r: RepoResult<User>)
        ensures
            match r {
                Ok(user) => exists|i: int|
                    #[trigger] is_first_match(self.users(), i, the_username@, password@)
                        && self.users()[i] == user@,
                Err(e) => (self.reliable() ==> e is NotFound) && (e is NotFound ==> no_match(
                    self.users(),
                    the_username@,
                    password@,
                )),
            },
    ;

    /// Counts the identities. A reliable store fails only where the count is
    /// beyond the numbers of the answer.
    fn total(&self) -> (r: RepoResult<i64>)
        ensures
            self.reliable() && self.users().len() <= i64::MAX ==> r is Ok,
            r matches Ok(n) ==> n == self.users().len(),
    ;
}

/// An identity store that keeps its rows in memory.
pub struct InMemoryUserRepository {
    rows: Vec<User>,
}

impl InMemoryUserRepository {
    pub fn new() -> (r: InMemoryUserRepository)
        ensures
            r.users() == Seq::<UserView>::empty(),
            r.reliable(),
    {
        let r = InMemoryUserRepository { rows: Vec::new() };
        assert(user_views(r.rows@) =~= Seq::<UserView>::empty());
        r
    }

    /// The id of the next row, or `None` where no greater id is left.
    fn next_row_id(&self) -> (r: Option<i32>)
        ensures
            r is Some <==> id_left(self.users()),
            r matches Some(id) ==> id == next_id(self.users()) && forall|i: int|
                0 <= i < self.users().len() ==> (#[trigger] self.users()[i]).id < id,
    {
        let ghost rows = self.users();
        let mut id: i32 = 1;
        let mut i: usize = 0;
        while i < self.rows.len()
            invariant
                i <= self.rows@.len(),
                rows == self.users(),
                id >= 1,
                id == next_id(rows.subrange(0, i as int)),
                forall|j: int| 0 <= j < i ==> (#[trigger] rows[j]).id < id,
            decreases self.rows@.len() - i,
        {
            let here = self.rows[i].get_id();
            proof {
                let upto = rows.subrange(0, i + 1);
                assert(upto.drop_last() =~= rows.subrange(0, i as int));
                assert(upto.last() == rows[i as int]);
            }
            if here == i32::MAX {
                assert(rows[i as int].id == i32::MAX);
                return None;
            }
            if here >= id {
                id = here + 1;
            }
            i += 1;
        }
        assert(rows.subrange(0, i as int) =~= rows);
        Some(id)
    }

    /// Looks for the first identity of a username.
    fn find_by_username(&self, the_username: &String) -> (r: RepoResult<User>)
        ensures
            match r {
                Ok(user) => exists|i: int|
                    #[trigger] is_first_named(self.users(), i, the_username@) && self.users()[i]
                        == user@,
                Err(e) => e is NotFound && forall|i: int|
                    0 <= i < self.users().len() ==> (#[trigger] self.users()[i]).username
                        != the_username@,
            },
    {
        let mut i: usize = 0;
        while i < self.rows.len()
            invariant
                i <= self.rows@.len(),
                forall|j: int| 0 <= j < i ==> (#[trigger] self.users()[j]).username
                    != the_username@,
            decreases self.rows@.len() - i,
        {
            if self.rows[i].get_username() == *the_username {
                let found = self.rows[i].clone();
                assert(is_first_named(self.users(), i as int, the_username@));
                return Ok(found);
            }
            i += 1;
        }
        Err(Error::NotFound)
    }
}

impl UserRepository for InMemoryUserRepository {
    closed spec fn users(&self) -> Seq<UserView> {
        user_views(self.rows@)
    }

    open spec fn reliable(&self) -> bool {
        true
    }

    /// Fails, and stores nothing, only where no greater id is left.
    fn add(&mut self, new_user: NewUser) -> (r: RepoResult<i32>)
        ensures
            r is Ok <==> id_left(old(self).users()),
            r is Err ==> final(self).users() == old(self).users(),
    {
        let id = match self.next_row_id() {
            Some(id) => id,
            None => {
                return Err(Error::DieselError(String::from_str("the ids are used up")));
            },
        };
        let username = new_user.get_username();
        let row = User::from_parts(id, new_user.get_username(), new_user.get_password());
        let ghost before = self.rows@;
        assert(user_views(before.push(row)) =~= user_views(before).push(row@));
        self.rows.push(row);
        assert(self.users().drop_last() =~= old(self).users());
        assert(self.users().last().username == new_user@.username);
        match self.find_by_username(&username) {
            Ok(user) => Ok(user.get_id()),
            Err(e) => Err(e),
        }
    }

    fn find(&self, the_username: String, password: String) -> (r: RepoResult<User>) {
        let mut i: usize = 0;
        while i < self.rows.len()
            invariant
                i <= self.rows@.len(),
                forall|j: int|
                    0 <= j < i ==> !has_credentials(
                        #[trigger] self.users()[j],
                        the_username@,
                        password@,
                    ),
            decreases self.rows@.len() - i,
        {
            if self.rows[i].get_username() == the_username && self.rows[i].get_hashed_password()
                == password {
                let found = self.rows[i].clone();
                assert(is_first_match(self.users(), i as int, the_username@, password@));
                return Ok(found);
            }
            i += 1;
        }
        Err(Error::NotFound)
    }

    fn total(&self) -> (r: RepoResult<i64>) {
        let n = self.rows.len();
        if n as u64 > 0x7fff_ffff_ffff_ffffu64 {
            return Err(Error::DieselError(String::from_str("the count is out of range")));
        }
        Ok(n as i64)
    }
}

} // verus!
