//! The users table: its rows as a sequence, what each statement does to
//! them, and a store that keeps them in memory.

use vstd::prelude::*;
use crate::model::{
    updated_row, view_of, views_of, UpdateUser, UpdateUserView, User, UserId, UserView,
};

verus! {

/// Some row has this identifier.
pub open spec fn holds_id(rows: Seq<UserView>, id: u128) -> bool {
    exists|i: int| 0 <= i < rows.len() && #[trigger] rows[i].id == id
}

/// No two rows share an identifier: the primary key.
pub open spec fn distinct_ids(rows: Seq<UserView>) -> bool {
    forall|i: int, j: int|
        0 <= i < rows.len() && 0 <= j < rows.len() && i != j ==> #[trigger] rows[i].id
            != #[trigger] rows[j].id
}

/// The place of a row with this identifier, where there is one.
pub open spec fn index_of(rows: Seq<UserView>, id: u128) -> int {
    choose|i: int| 0 <= i < rows.len() && #[trigger] rows[i].id == id
}

/// What selecting by identifier returns.
pub open spec fn selected(rows: Seq<UserView>, id: u128) -> Option<UserView> {
    if holds_id(rows, id) {
        Some(rows[index_of(rows, id)])
    } else {
        None
    }
}

/// The rows after an insertion. A row whose identifier is taken is refused
/// and the rows stay as they are.
pub open spec fn after_insert(rows: Seq<UserView>, row: UserView) -> Seq<UserView> {
    if holds_id(rows, row.id) {
        rows
    } else {
        rows.push(row)
    }
}

/// The rows after a partial update of the row with this identifier.
pub open spec fn after_update(rows: Seq<UserView>, id: u128, change: UpdateUserView) -> Seq<
    UserView,
> {
    if holds_id(rows, id) {
        let at = index_of(rows, id);
        rows.update(at, updated_row(rows[at], change))
    } else {
        rows
    }
}

/// The rows after deleting the row with this identifier.
pub open spec fn after_delete(rows: Seq<UserView>, id: u128) -> Seq<UserView> {
    if holds_id(rows, id) {
        rows.remove(index_of(rows, id))
    } else {
        rows
    }
}

/// The number of rows that a deletion by identifier affects.
pub open spec fn deleted_count(rows: Seq<UserView>, id: u128) -> u64 {
    if selected(rows, id) is Some {
        1
    } else {
        0
    }
}

/// What selecting `id` returns after the insertion of `row`.
pub open spec fn selected_after_insert(rows: Seq<UserView>, row: UserView, id: u128) -> Option<
    UserView,
> {
    if id == row.id && selected(rows, id) is None {
        Some(row)
    } else {
        selected(rows, id)
    }
}

/// What selecting `id` returns after a partial update of `target`.
pub open spec fn selected_after_update(
    rows: Seq<UserView>,
    target: u128,
    change: UpdateUserView,
    id: u128,
) -> Option<UserView> {
    match selected(rows, id) {
        Some(row) => if id == target {
            Some(updated_row(row, change))
        } else {
            Some(row)
        },
        None => None,
    }
}

/// What selecting `id` returns after the deletion of `target`.
pub open spec fn selected_after_delete(rows: Seq<UserView>, target: u128, id: u128) -> Option<
    UserView,
> {
    if id == target {
        None
    } else {
        selected(rows, id)
    }
}

/// Under the primary key a row's identifier gives its place.
pub proof fn lemma_index_of(rows: Seq<UserView>, at: int)
    requires
        distinct_ids(rows),
        0 <= at < rows.len(),
    ensures
        holds_id(rows, rows[at].id),
        index_of(rows, rows[at].id) == at,
{
    let id = rows[at].id;
    assert(0 <= at < rows.len() && rows[at].id == id);
}

/// An insertion under a free identifier keeps the primary key.
pub proof fn lemma_insert_keeps_key(rows: Seq<UserView>, row: UserView)
    requires
        distinct_ids(rows),
    ensures
        distinct_ids(after_insert(rows, row)),
        !holds_id(rows, row.id) ==> selected(after_insert(rows, row), row.id) == Some(row),
{
    if !holds_id(rows, row.id) {
        let next = rows.push(row);
        assert forall|i: int, j: int|
            0 <= i < next.len() && 0 <= j < next.len() && i != j implies #[trigger] next[i].id
            != #[trigger] next[j].id by {
            if i < rows.len() {
                assert(rows[i].id == next[i].id);
            }
            if j < rows.len() {
                assert(rows[j].id == next[j].id);
            }
        }
        lemma_index_of(next, rows.len() as int);
    }
}

/// A partial update keeps the primary key, and a selection then gives the
/// updated row.
pub proof fn lemma_update_keeps_key(rows: Seq<UserView>, id: u128, change: UpdateUserView)
    requires
        distinct_ids(rows),
    ensures
        distinct_ids(after_update(rows, id, change)),
        holds_id(after_update(rows, id, change), id) == holds_id(rows, id),
        holds_id(rows, id) ==> selected(after_update(rows, id, change), id) == Some(
            updated_row(rows[index_of(rows, id)], change),
        ),
{
    if holds_id(rows, id) {
        let at = index_of(rows, id);
        let next = after_update(rows, id, change);
        assert forall|i: int| 0 <= i < next.len() implies #[trigger] next[i].id == rows[i].id by {}
        assert(next[at].id == id);
        lemma_index_of(next, at);
    } else {
        assert(after_update(rows, id, change) == rows);
    }
}

/// A deletion keeps the primary key, and no row has the identifier
/// afterwards.
pub proof fn lemma_delete_keeps_key(rows: Seq<UserView>, id: u128)
    requires
        distinct_ids(rows),
    ensures
        distinct_ids(after_delete(rows, id)),
        !holds_id(after_delete(rows, id), id),
{
    if holds_id(rows, id) {
        let at = index_of(rows, id);
        let next = rows.remove(at);
        assert forall|i: int| 0 <= i < next.len() implies #[trigger] next[i].id == rows[if i
            < at {
            i
        } else {
            i + 1
        }].id by {}
        assert forall|i: int| 0 <= i < next.len() implies #[trigger] next[i].id != id by {
            let from = if i < at {
                i
            } else {
                i + 1
            };
            assert(rows[from].id != rows[at].id);
        }
    }
}

/// A row that stays at a place of the next rows is selected there again.
proof fn lemma_selected_moves(
    rows: Seq<UserView>,
    next: Seq<UserView>,
    id: u128,
    place: spec_fn(int) -> int,
    back: spec_fn(int) -> int,
)
    requires
        distinct_ids(rows),
        distinct_ids(next),
        holds_id(rows, id) ==> 0 <= place(index_of(rows, id)) < next.len() && next[place(
            index_of(rows, id),
        )] == rows[index_of(rows, id)],
        forall|j: int|
            0 <= j < next.len() && (#[trigger] next[j]).id == id ==> 0 <= back(j) < rows.len()
                && rows[back(j)].id == id,
    ensures
        selected(next, id) == selected(rows, id),
{
    if holds_id(rows, id) {
        let at = index_of(rows, id);
        lemma_index_of(next, place(at));
    } else {
        if holds_id(next, id) {
            let j = index_of(next, id);
            assert(next[j].id == id);
            assert(rows[back(j)].id == id);
        }
    }
}

/// What a selection returns after an insertion.
pub proof fn lemma_selected_after_insert(rows: Seq<UserView>, row: UserView, id: u128)
    requires
        distinct_ids(rows),
    ensures
        selected(after_insert(rows, row), id) == selected_after_insert(rows, row, id),
{
    lemma_insert_keeps_key(rows, row);
    if !holds_id(rows, row.id) && id != row.id {
        let next = rows.push(row);
        lemma_selected_moves(rows, next, id, |i: int| i, |j: int| j);
    }
}

/// What a selection returns after a partial update.
pub proof fn lemma_selected_after_update(
    rows: Seq<UserView>,
    target: u128,
    change: UpdateUserView,
    id: u128,
)
    requires
        distinct_ids(rows),
    ensures
        selected(after_update(rows, target, change), id) == selected_after_update(
            rows,
            target,
            change,
            id,
        ),
{
    lemma_update_keeps_key(rows, target, change);
    if holds_id(rows, target) && id != target {
        let next = after_update(rows, target, change);
        assert forall|j: int| 0 <= j < next.len() implies (#[trigger] next[j]).id
            == rows[j].id by {}
        lemma_selected_moves(rows, next, id, |i: int| i, |j: int| j);
    }
}

/// What a selection returns after a deletion.
pub proof fn lemma_selected_after_delete(rows: Seq<UserView>, target: u128, id: u128)
    requires
        distinct_ids(rows),
    ensures
        selected(after_delete(rows, target), id) == selected_after_delete(rows, target, id),
{
    lemma_delete_keeps_key(rows, target);
    if holds_id(rows, target) && id != target {
        let gone = index_of(rows, target);
        let next = rows.remove(gone);
        lemma_selected_moves(
            rows,
            next,
            id,
            |i: int|
                if i < gone {
                    i
                } else {
                    i - 1
                },
            |j: int|
                if j < gone {
                    j
                } else {
                    j + 1
                },
        );
    }
}

/// A store that keeps the rows in memory, in the order of their insertion.
pub struct UserTable {
    rows: Vec<User>,
}

impl View for UserTable {
    type V = Seq<UserView>;

    closed spec fn view(&self) -> Seq<UserView> {
        views_of(self.rows@)
    }
}

impl UserTable {
    /// The table's invariant: its rows obey the primary key.
    pub open spec fn wf(&self) -> bool {
        distinct_ids(self@)
    }

    /// An empty table.
    pub fn new() -> (table: Self)
        ensures
            table@ == Seq::<UserView>::empty(),
            table.wf(),
    {
        let rows: Vec<User> = Vec::new();
        assert(views_of(rows@) =~= Seq::<UserView>::empty());
        UserTable { rows }
    }

    /// The number of rows.
    pub fn len(&self) -> (count: usize)
        ensures
            count == self@.len(),
    {
        self.rows.len()
    }

    fn find(&self, id: UserId) -> (at: Option<usize>)
        requires
            self.wf(),
        ensures
            at is Some == holds_id(self@, id.value),
            at matches Some(i) ==> i < self.rows@.len() && i == index_of(self@, id.value),
    {
        let mut i: usize = 0;
        while i < self.rows.len()
            invariant
                self.wf(),
                i <= self.rows@.len(),
                forall|k: int| 0 <= k < i ==> (#[trigger] self@[k]).id != id.value,
            decreases self.rows@.len() - i,
        {
            if self.rows[i].id.value == id.value {
                proof {
                    lemma_index_of(self@, i as int);
                }
                return Some(i);
            }
            i += 1;
        }
        None
    }

    /// `INSERT .. RETURNING`: stores the row and returns it, or returns
    /// `None` and changes nothing where its identifier is taken.
    pub fn insert_row(&mut self, row: User) -> (stored: Option<User>)
        requires
            old(self).wf(),
        ensures
            final(self)@ == after_insert(old(self)@, row@),
            final(self).wf(),
            view_of(stored) == if selected(old(self)@, row@.id) is Some {
                None
            } else {
                Some(row@)
            },
            forall|id: u128| #[trigger]
                selected(final(self)@, id) == selected_after_insert(old(self)@, row@, id),
    {
        proof {
            assert forall|id: u128| #[trigger]
                selected(after_insert(self@, row@), id) == selected_after_insert(
                    self@,
                    row@,
                    id,
                ) by {
                lemma_selected_after_insert(self@, row@, id);
            }
        }
        match self.find(row.id) {
            Some(_) => None,
            None => {
                let copy = row.clone();
                proof {
                            lemma_insert_keeps_key(self@, row@);
                    assert(views_of(self.rows@.push(row)) =~= views_of(self.rows@).push(row@));
                }
                self.rows.push(row);
                Some(copy)
            },
        }
    }

    /// `SELECT .. WHERE id = ..`: the row with this identifier, if any.
    pub fn select_by_id(&self, id: UserId) -> (row: Option<User>)
        requires
            self.wf(),
        ensures
            view_of(row) == selected(self@, id.value),
    {
        match self.find(id) {
            Some(at) => Some(self.rows[at].clone()),
            None => None,
        }
    }

    /// `SELECT ..` without a condition: every row, in the table's order.
    pub fn select_all(&self) -> (rows: Vec<User>)
        ensures
            views_of(rows@) == self@,
    {
        let mut rows: Vec<User> = Vec::new();
        let mut i: usize = 0;
        while i < self.rows.len()
            invariant
                i <= self.rows@.len(),
                rows@.len() == i,
                forall|k: int| 0 <= k < i ==> (#[trigger] rows@[k])@ == self.rows@[k]@,
            decreases self.rows@.len() - i,
        {
            rows.push(self.rows[i].clone());
            i += 1;
        }
        assert(views_of(rows@) =~= self@);
        rows
    }

    /// `UPDATE .. SET c = COALESCE(.., c) .. RETURNING`: replaces the fields
    /// that the change holds in the row with this identifier and returns the
    /// row as it now is, or returns `None` where there is no such row.
    pub fn update_coalesce(&mut self, id: UserId, change: UpdateUser) -> (row: Option<User>)
        requires
            old(self).wf(),
        ensures
            final(self)@ == after_update(old(self)@, id.value, change@),
            final(self).wf(),
            view_of(row) == selected(final(self)@, id.value),
            forall|other: u128| #[trigger]
                selected(final(self)@, other) == selected_after_update(
                    old(self)@,
                    id.value,
                    change@,
                    other,
                ),
    {
        proof {
            lemma_update_keeps_key(self@, id.value, change@);
            assert forall|other: u128| #[trigger]
                selected(after_update(self@, id.value, change@), other)
                    == selected_after_update(self@, id.value, change@, other) by {
                lemma_selected_after_update(self@, id.value, change@, other);
            }
        }
        match self.find(id) {
            Some(at) => {
                let current = &self.rows[at];
                let name = match change.name {
                    Some(text) => text,
                    None => current.name.clone(),
                };
                let email = match change.email {
                    Some(text) => text,
                    None => current.email.clone(),
                };
                let next = User { id: current.id, name, email };
                let copy = next.clone();
                proof {
                    assert(next@ == updated_row(self@[at as int], change@));
                    assert(views_of(self.rows@.update(at as int, next)) =~= views_of(
                        self.rows@,
                    ).update(at as int, next@));
                }
                self.rows.set(at, next);
                Some(copy)
            },
            None => None,
        }
    }

    /// `DELETE .. WHERE id = ..`: removes the row with this identifier and
    /// returns the number of rows removed, 1 or 0.
    pub fn delete_by_id(&mut self, id: UserId) -> (affected: u64)
        requires
            old(self).wf(),
        ensures
            final(self)@ == after_delete(old(self)@, id.value),
            final(self).wf(),
            affected == deleted_count(old(self)@, id.value),
            forall|other: u128| #[trigger]
                selected(final(self)@, other) == selected_after_delete(
                    old(self)@,
                    id.value,
                    other,
                ),
    {
        proof {
            lemma_delete_keeps_key(self@, id.value);
            assert forall|other: u128| #[trigger]
                selected(after_delete(self@, id.value), other) == selected_after_delete(
                    self@,
                    id.value,
                    other,
                ) by {
                lemma_selected_after_delete(self@, id.value, other);
            }
        }
        match self.find(id) {
            Some(at) => {
                proof {
                    assert(views_of(self.rows@.remove(at as int)) =~= views_of(
                        self.rows@,
                    ).remove(at as int));
                }
                let _ = self.rows.remove(at);
                1
            },
            None => 0,
        }
    }
}

} // verus!
