//! The message store: insert, get by id, and the keyset query over the
//! messages of one sender.

use crate::model::message::{Message, MessageView, NewMessage, NewMessageView};
use crate::model::repository::error::{Error, RepoResult};
use vstd::prelude::*;
use vstd::string::*;

verus! {

/// The rows of a store as plain values.
pub open spec fn message_views(rows: Seq<Message>) -> Seq<MessageView> {
    rows.map_values(|m: Message| m@)
}

/// Whether ids grow along the rows: a store assigns ids in insertion order.
pub open spec fn ids_increase(rows: Seq<MessageView>) -> bool {
    forall|i: int, j: int| 0 <= i < j < rows.len() ==> rows[i].id < rows[j].id
}

/// The row that stands for `message` once it is stored under `id`.
pub open spec fn stored(message: NewMessageView, id: i32) -> MessageView {
    MessageView { id, from: message.from, to: message.to, message: message.message }
}

/// The id that a store gives its next row: 1 in a store without rows, and
/// one more than the greatest id where that is more.
pub open spec fn next_id(rows: Seq<MessageView>) -> int
    decreases rows.len(),
{
    if rows.len() == 0 {
        1
    } else {
        let before = next_id(rows.drop_last());
        if rows.last().id >= before {
            rows.last().id + 1
        } else {
            before
        }
    }
}

/// Whether `after` is `before` with `message` inserted at the end, under the
/// next id, which is greater than every id before.
pub open spec fn inserted(
    before: Seq<MessageView>,
    after: Seq<MessageView>,
    message: NewMessageView,
) -> bool {
    &&& after.len() == before.len() + 1
    &&& after.drop_last() == before
    &&& after.last() == stored(message, after.last().id)
    &&& after.last().id == next_id(before)
    &&& forall|i: int| 0 <= i < before.len() ==> before[i].id < after.last().id
}

/// Whether ids fall along the rows: the newest row comes first.
pub open spec fn ids_descend(rows: Seq<MessageView>) -> bool {
    forall|k: int, l: int| 0 <= k < l < rows.len() ==> rows[k].id > rows[l].id
}

/// Whether an id is left for one more row: no id is the greatest that there
/// is.
pub open spec fn id_left(rows: Seq<MessageView>) -> bool {
    forall|i: int| 0 <= i < rows.len() ==> (#[trigger] rows[i]).id < i32::MAX
}

/// Whether a row belongs to the query for the messages of `from_user` since
/// the message `from_msg`.
pub open spec fn in_page(row: MessageView, from_msg: i32, from_user: i32) -> bool {
    row.id >= from_msg && row.from == from_user
}

/// Every stored row of the query, in the order of the store.
pub open spec fn kept(rows: Seq<MessageView>, from_msg: i32, from_user: i32) -> Seq<MessageView> {
    rows.filter(|row: MessageView| in_page(row, from_msg, from_user))
}

/// Every stored row of the query, the one inserted last first.
pub open spec fn hits(rows: Seq<MessageView>, from_msg: i32, from_user: i32) -> Seq<
    MessageView,
> {
    kept(rows, from_msg, from_user).reverse()
}

/// What the query answers: its first `limit` rows, the one inserted last
/// first. A limit of zero or less leaves no row.
pub open spec fn page(rows: Seq<MessageView>, from_msg: i32, from_user: i32, limit: i64) -> Seq<
    MessageView,
> {
    let all = hits(rows, from_msg, from_user);
    if limit <= 0 {
        Seq::empty()
    } else if limit < all.len() {
        all.take(limit as int)
    } else {
        all
    }
}

/// Ids that increase along the rows still do so once a message is inserted.
pub proof fn insert_keeps_ids_increasing(
    before: Seq<MessageView>,
    after: Seq<MessageView>,
    message: NewMessageView,
)
    requires
        ids_increase(before),
        inserted(before, after, message),
    ensures
        ids_increase(after),
{
    assert forall|i: int, j: int| 0 <= i < j < after.len() implies after[i].id < after[j].id by {
        assert(after[i] == after.drop_last()[i]);
        if j < before.len() {
            assert(after[j] == after.drop_last()[j]);
        }
    }
}

/// The rows that a query keeps are stored rows of the query, and their ids
/// increase where those of the store do.
proof fn lemma_kept_rows(rows: Seq<MessageView>, from_msg: i32, from_user: i32)
    ensures
        forall|k: int|
            0 <= k < kept(rows, from_msg, from_user).len() ==> in_page(
                #[trigger] kept(rows, from_msg, from_user)[k],
                from_msg,
                from_user,
            ) && rows.contains(kept(rows, from_msg, from_user)[k]),
        forall|i: int|
            0 <= i < rows.len() && in_page(rows[i], from_msg, from_user) ==> kept(
                rows,
                from_msg,
                from_user,
            ).contains(#[trigger] rows[i]),
        ids_increase(rows) ==> ids_increase(kept(rows, from_msg, from_user)),
    decreases rows.len(),
{
    reveal(Seq::filter);
    let wanted = |row: MessageView| in_page(row, from_msg, from_user);
    let all = kept(rows, from_msg, from_user);
    if rows.len() > 0 {
        let older = rows.drop_last();
        let sub = kept(older, from_msg, from_user);
        lemma_kept_rows(older, from_msg, from_user);
        assert(all == if wanted(rows.last()) {
            sub.push(rows.last())
        } else {
            sub
        });
        assert forall|k: int| 0 <= k < all.len() implies in_page(
            #[trigger] all[k],
            from_msg,
            from_user,
        ) && rows.contains(all[k]) by {
            if k < sub.len() {
                assert(all[k] == sub[k]);
                let at = choose|at: int| 0 <= at < older.len() && older[at] == sub[k];
                assert(rows[at] == sub[k]);
            } else {
                assert(all[k] == rows[rows.len() - 1]);
            }
        }
        assert forall|i: int|
            0 <= i < rows.len() && in_page(rows[i], from_msg, from_user) implies all.contains(
            #[trigger] rows[i],
        ) by {
            if i < older.len() {
                assert(older[i] == rows[i]);
                let at = choose|at: int| 0 <= at < sub.len() && sub[at] == older[i];
                assert(all[at] == rows[i]);
            } else {
                assert(all[all.len() - 1] == rows[i]);
            }
        }
        if ids_increase(rows) {
            assert(ids_increase(older)) by {
                assert forall|i: int, j: int| 0 <= i < j < older.len() implies older[i].id
                    < older[j].id by {
                    assert(older[i] == rows[i] && older[j] == rows[j]);
                }
            }
            assert forall|i: int, j: int| 0 <= i < j < all.len() implies all[i].id
                < all[j].id by {
                if j < sub.len() {
                    assert(all[i] == sub[i] && all[j] == sub[j]);
                } else {
                    assert(all[i] == sub[i]);
                    let at = choose|at: int| 0 <= at < older.len() && older[at] == sub[i];
                    assert(rows[at] == sub[i]);
                    assert(all[j] == rows[rows.len() - 1]);
                }
            }
        }
    }
}

/// A query that no stored row belongs to answers with no row.
pub proof fn page_without_match_is_empty(
    rows: Seq<MessageView>,
    from_msg: i32,
    from_user: i32,
    limit: i64,
)
    requires
        forall|i: int| 0 <= i < rows.len() ==> !in_page(#[trigger] rows[i], from_msg, from_user),
    ensures
        page(rows, from_msg, from_user, limit) == Seq::<MessageView>::empty(),
{
    lemma_kept_rows(rows, from_msg, from_user);
    let all = kept(rows, from_msg, from_user);
    if all.len() > 0 {
        assert(in_page(all[0], from_msg, from_user) && rows.contains(all[0]));
    }
    assert(hits(rows, from_msg, from_user) =~= Seq::<MessageView>::empty());
    assert(page(rows, from_msg, from_user, limit) =~= Seq::<MessageView>::empty());
}

/// In a store whose ids increase, the answer to a query holds no more rows
/// than the limit, each of them a stored row of the query, and their ids
/// descend.
pub proof fn page_holds_rows_of_the_query_newest_first(
    rows: Seq<MessageView>,
    from_msg: i32,
    from_user: i32,
    limit: i64,
)
    requires
        ids_increase(rows),
    ensures
        limit <= 0 ==> page(rows, from_msg, from_user, limit).len() == 0,
        limit > 0 ==> page(rows, from_msg, from_user, limit).len() <= limit,
        forall|k: int|
            0 <= k < page(rows, from_msg, from_user, limit).len() ==> in_page(
                #[trigger] page(rows, from_msg, from_user, limit)[k],
                from_msg,
                from_user,
            ) && rows.contains(page(rows, from_msg, from_user, limit)[k]),
        forall|k: int, l: int|
            0 <= k < l < page(rows, from_msg, from_user, limit).len() ==> page(
                rows,
                from_msg,
                from_user,
                limit,
            )[k].id > page(rows, from_msg, from_user, limit)[l].id,
{
    lemma_kept_rows(rows, from_msg, from_user);
    let all = kept(rows, from_msg, from_user);
    let newest_first = hits(rows, from_msg, from_user);
    let answer = page(rows, from_msg, from_user, limit);
    assert forall|k: int| 0 <= k < answer.len() implies in_page(
        #[trigger] answer[k],
        from_msg,
        from_user,
    ) && rows.contains(answer[k]) by {
        assert(answer[k] == newest_first[k]);
        assert(newest_first[k] == all[all.len() - 1 - k]);
    }
    assert forall|k: int, l: int| 0 <= k < l < answer.len() implies answer[k].id
        > answer[l].id by {
        assert(answer[k] == all[all.len() - 1 - k]);
        assert(answer[l] == all[all.len() - 1 - l]);
    }
}

/// In a store whose ids increase, a stored row of a query that the answer
/// leaves out is older than every row of the answer, and the answer is as
/// long as the limit allows.
pub proof fn page_leaves_out_only_older_rows(
    rows: Seq<MessageView>,
    from_msg: i32,
    from_user: i32,
    limit: i64,
    i: int,
)
    requires
        ids_increase(rows),
        0 <= i < rows.len(),
        in_page(rows[i], from_msg, from_user),
        !page(rows, from_msg, from_user, limit).contains(rows[i]),
    ensures
        limit <= 0 ==> page(rows, from_msg, from_user, limit).len() == 0,
        limit > 0 ==> page(rows, from_msg, from_user, limit).len() == limit,
        forall|k: int|
            0 <= k < page(rows, from_msg, from_user, limit).len() ==> (#[trigger] page(
                rows,
                from_msg,
                from_user,
                limit,
            )[k]).id > rows[i].id,
{
    lemma_kept_rows(rows, from_msg, from_user);
    let all = kept(rows, from_msg, from_user);
    let newest_first = hits(rows, from_msg, from_user);
    let answer = page(rows, from_msg, from_user, limit);
    assert(all.contains(rows[i]));
    let at = choose|at: int| 0 <= at < all.len() && all[at] == rows[i];
    let place = all.len() - 1 - at;
    assert(newest_first[place] == rows[i]);
    if limit > 0 {
        if place < answer.len() {
            assert(answer[place] == rows[i]);
        }
        assert forall|k: int| 0 <= k < answer.len() implies (#[trigger] answer[k]).id
            > rows[i].id by {
            assert(answer[k] == all[all.len() - 1 - k]);
        }
    }
}

pub trait MessageRepository {
    /// The stored messages, in the order in which they were inserted, which
    /// is the order of their ids: every method says that the ids increase.
    /// A store that does not say what it holds leaves it open.
    open spec fn messages(&self) -> Seq<MessageView> {
        arbitrary()
    }

    /// Whether this store fails only where it must: a reliable store answers
    /// every read but for a missing row, and takes every insert while an id
    /// is left. A store is taken to fail unless it says otherwise.
    open spec fn reliable(&self) -> bool {
        false
    }

    /// Inserts a message and answers with the id it was stored under: the
    /// next id, which is 1 in a store without rows and else one more than the
    /// greatest, so greater than every id given before. Where the store
    /// fails, the message may or may not have been stored.
    ///
    /// A store reads the id back as that of the newest message of the
    /// sender. The caller has the store to itself while it works, so that
    /// message is the one inserted; a store that is shared without that can
    /// answer with the id of another insert of the same sender.
    fn add(&mut self, new_message: NewMessage) -> (r: RepoResult<i32>)
        ensures
            final(self).reliable() == old(self).reliable(),
            ids_increase(final(self).messages()),
            old(self).reliable() && id_left(old(self).messages()) ==> r is Ok,
            match r {
                Ok(id) => inserted(old(self).messages(), final(self).messages(), new_message@)
                    && id == final(self).messages().last().id,
                Err(_) => final(self).messages() == old(self).messages() || inserted(
                    old(self).messages(),
                    final(self).messages(),
                    new_message@,
                ),
            },
    ;

    /// Retrieves a message by its id. `NotFound` says that no message has it.
    fn get(&self, id_msg: i32) -> (r: RepoResult<Message>)
        ensures
            ids_increase(self.messages()),
            match r {
                Ok(message) => message@.id == id_msg && self.messages().contains(message@),
                Err(e) => (self.reliable() ==> e is NotFound) && (e is NotFound ==> forall|i: int|
                    0 <= i < self.messages().len() ==> (#[trigger] self.messages()[i]).id
                        != id_msg),
            },
    ;

    /// Looks for the messages of `from_user` with an id of `from_msg` or
    /// more, and answers with at most `limit` of them, the newest first: their
    /// ids descend.
    fn find(&self, from_msg: i32, from_user: i32, limit: i64) -> (r: RepoResult<Vec<Message>>)
        ensures
            self.reliable() ==> r is Ok,
            ids_increase(self.messages()),
            r matches Ok(found) ==> message_views(found@) == page(
                self.messages(),
                from_msg,
                from_user,
                limit,
            ) && ids_descend(message_views(found@)),
    ;
}

/// A message store that keeps its rows in memory, in the order of their ids.
pub struct InMemoryMessageRepository {
    rows: Vec<Message>,
}

impl InMemoryMessageRepository {
    /// The ids of the rows increase in the order of the rows.
    #[verifier::type_invariant]
    spec fn ids_in_order(self) -> bool {
        ids_increase(message_views(self.rows@))
    }

    pub fn new() -> (r: InMemoryMessageRepository)
        ensures
            r.messages() == Seq::<MessageView>::empty(),
            r.reliable(),
    {
        let r = InMemoryMessageRepository { rows: Vec::new() };
        assert(message_views(r.rows@) =~= Seq::<MessageView>::empty());
        r
    }

    /// The id of the next row, or `None` where no greater id is left.
    fn next_row_id(&self) -> (r: Option<i32>)
        ensures
            r is Some <==> id_left(self.messages()),
            r matches Some(id) ==> id == next_id(self.messages()) && forall|i: int|
                0 <= i < self.messages().len() ==> (#[trigger] self.messages()[i]).id < id,
    {
        let ghost rows = self.messages();
        let mut id: i32 = 1;
        let mut i: usize = 0;
        while i < self.rows.len()
            invariant
                i <= self.rows@.len(),
                rows == self.messages(),
                id >= 1,
                id == next_id(rows.subrange(0, i as int)),
                forall|j: int| 0 <= j < i ==> (#[trigger] rows[j]).id < id,
            decreases self.rows@.len() - i,
        {
            let here = self.rows[i].get_id();
            proof {
                let upto = rows.subrange(0, i + 1);
                assert(upto.drop_last() =~= rows.subrange(0, i as int));
                assert(upto.last() == rows[i as int]);
            }
            if here == i32::MAX {
                assert(rows[i as int].id == i32::MAX);
                return None;
            }
            if here >= id {
                id = here + 1;
            }
            i += 1;
        }
        assert(rows.subrange(0, i as int) =~= rows);
        Some(id)
    }

    /// Looks for the message of `from_user` that was inserted last, which is
    /// the one of the greatest id.
    pub fn find_latest_msg(&self, from_user: i32) -> (r: RepoResult<Message>)
        ensures
            ids_increase(self.messages()),
            match r {
                Ok(message) => exists|i: int|
                    {
                        &&& 0 <= i < self.messages().len()
                        &&& #[trigger] self.messages()[i] == message@
                        &&& message@.from == from_user
                        &&& forall|j: int|
                            i < j < self.messages().len() ==> (#[trigger] self.messages()[j]).from
                                != from_user
                    },
                Err(e) => e is NotFound && forall|i: int|
                    0 <= i < self.messages().len() ==> (#[trigger] self.messages()[i]).from
                        != from_user,
            },
    {
        proof {
            use_type_invariant(self);
        }
        let mut i: usize = self.rows.len();
        while i > 0
            invariant
                i <= self.rows@.len(),
                ids_increase(self.messages()),
                forall|j: int|
                    i <= j < self.rows@.len() ==> (#[trigger] self.messages()[j]).from != from_user,
            decreases i,
        {
            i -= 1;
            if self.rows[i].get_from() == from_user {
                let found = self.rows[i].clone();
                assert(self.messages()[i as int] == found@);
                return Ok(found);
            }
        }
        Err(Error::NotFound)
    }
}

impl MessageRepository for InMemoryMessageRepository {
    closed spec fn messages(&self) -> Seq<MessageView> {
        message_views(self.rows@)
    }

    open spec fn reliable(&self) -> bool {
        true
    }

    /// Gives the message the next id. Fails, and stores nothing, only where
    /// no greater id is left.
    fn add(&mut self, new_message: NewMessage) -> (r: RepoResult<i32>)
        ensures
            r is Ok <==> id_left(old(self).messages()),
            r is Err ==> final(self).messages() == old(self).messages(),
    {
        proof {
            use_type_invariant(&*self);
        }
        let id = match self.next_row_id() {
            Some(id) => id,
            None => {
                return Err(Error::DieselError(String::from_str("the ids are used up")));
            },
        };
        let sender = new_message.get_from();
        let row = Message::from_parts(
            id,
            sender,
            new_message.get_to(),
            new_message.get_message(),
        );
        let ghost before = self.rows@;
        let mut rows: Vec<Message> = Vec::new();
        assert(message_views(rows@) =~= Seq::<MessageView>::empty());
        std::mem::swap(&mut self.rows, &mut rows);
        rows.push(row);
        proof {
            assert(message_views(rows@) =~= message_views(before).push(row@));
            let now = message_views(rows@);
            assert forall|i: int, j: int| 0 <= i < j < now.len() implies now[i].id < now[j].id by {
                assert(now[i] == message_views(before)[i]);
                if j < before.len() {
                    assert(now[j] == message_views(before)[j]);
                }
            }
        }
        std::mem::swap(&mut self.rows, &mut rows);
        assert(self.messages().drop_last() =~= old(self).messages());
        assert(self.messages()[before.len() as int].from == sender);
        match self.find_latest_msg(sender) {
            Ok(message) => Ok(message.get_id()),
            Err(e) => Err(e),
        }
    }

    fn get(&self, id_msg: i32) -> (r: RepoResult<Message>) {
        proof {
            use_type_invariant(self);
        }
        let mut i: usize = 0;
        while i < self.rows.len()
            invariant
                i <= self.rows@.len(),
                ids_increase(self.messages()),
                forall|j: int| 0 <= j < i ==> (#[trigger] self.messages()[j]).id != id_msg,
            decreases self.rows@.len() - i,
        {
            if self.rows[i].get_id() == id_msg {
                let found = self.rows[i].clone();
                assert(self.messages()[i as int] == found@);
                return Ok(found);
            }
            i += 1;
        }
        Err(Error::NotFound)
    }

    fn find(&self, from_msg: i32, from_user: i32, limit: i64) -> (r: RepoResult<Vec<Message>>) {
        proof {
            use_type_invariant(self);
            page_holds_rows_of_the_query_newest_first(
                self.messages(),
                from_msg,
                from_user,
                limit,
            );
        }
        let mut found: Vec<Message> = Vec::new();
        if limit <= 0 {
            assert(message_views(found@) =~= Seq::<MessageView>::empty());
            return Ok(found);
        }
        let ghost rows = self.messages();
        let ghost wanted = |row: MessageView| in_page(row, from_msg, from_user);
        let mut i: usize = self.rows.len();
        proof {
            assert(rows.subrange(0, i as int) =~= rows);
            assert(message_views(found@) =~= Seq::<MessageView>::empty());
        }
        while i > 0 && (found.len() as i64) < limit
            invariant
                i <= self.rows@.len(),
                rows == self.messages(),
                wanted == |row: MessageView| in_page(row, from_msg, from_user),
                limit > 0,
                found@.len() <= limit,
                found@.len() <= self.rows@.len() - i,
                hits(rows, from_msg, from_user) == message_views(found@) + rows.subrange(
                    0,
                    i as int,
                ).filter(wanted).reverse(),
            decreases i,
        {
            i -= 1;
            let ghost older = rows.subrange(0, i as int);
            let ghost upto = rows.subrange(0, i + 1);
            let ghost shown = message_views(found@);
            proof {
                reveal(Seq::filter);
                assert(upto.drop_last() =~= older);
                assert(upto.last() == rows[i as int]);
            }
            if self.rows[i].get_id() >= from_msg && self.rows[i].get_from() == from_user {
                let row = self.rows[i].clone();
                proof {
                    assert(wanted(rows[i as int]));
                    assert(upto.filter(wanted) == older.filter(wanted).push(rows[i as int]));
                    assert(older.filter(wanted).push(rows[i as int]).reverse() =~= seq![
                        rows[i as int],
                    ] + older.filter(wanted).reverse());
                    assert(message_views(found@.push(row)) =~= shown.push(rows[i as int]));
                    assert(shown + (seq![rows[i as int]] + older.filter(wanted).reverse())
                        =~= shown.push(rows[i as int]) + older.filter(wanted).reverse());
                }
                found.push(row);
            } else {
                proof {
                    assert(!wanted(rows[i as int]));
                    assert(upto.filter(wanted) == older.filter(wanted));
                }
            }
        }
        proof {
            let all = hits(rows, from_msg, from_user);
            let rest = rows.subrange(0, i as int).filter(wanted).reverse();
            if i == 0 {
                reveal(Seq::filter);
                assert(rest =~= Seq::<MessageView>::empty());
                assert(all =~= message_views(found@));
            } else {
                assert(all.take(limit as int) =~= message_views(found@));
            }
        }
        Ok(found)
    }
}

} // verus!
