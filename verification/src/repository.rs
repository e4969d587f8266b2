//! The repository: one statement per operation, and the rule that turns
//! each statement's outcome into a domain result.

use vstd::prelude::*;
use crate::error::AppError;
use crate::model::{
    created_row, view_of, views_of, CreateUser, CreateUserView, UpdateUser, UpdateUserView, User,
    UserId, UserView,
};
use crate::ident::is_random_uuid;
use crate::table::{
    after_delete, after_insert, after_update, deleted_count, distinct_ids, holds_id, selected,
    selected_after_delete, selected_after_insert, selected_after_update, UserTable,
};

verus! {

/// The view of a result that holds a user.
pub open spec fn user_result_view(result: Result<User, AppError>) -> Result<UserView, AppError> {
    match result {
        Ok(user) => Ok(user@),
        Err(error) => Err(error),
    }
}

/// The view of a result that holds a list of users.
pub open spec fn users_result_view(result: Result<Vec<User>, AppError>) -> Result<
    Seq<UserView>,
    AppError,
> {
    match result {
        Ok(users) => Ok(views_of(users@)),
        Err(error) => Err(error),
    }
}

/// A statement that must produce a row: no row is a storage fault.
pub open spec fn row_or_fault(row: Option<UserView>) -> Result<UserView, AppError> {
    match row {
        Some(user) => Ok(user),
        None => Err(AppError::Database),
    }
}

/// A statement that may produce a row: no row means that the user is
/// missing.
pub open spec fn row_or_missing(row: Option<UserView>) -> Result<UserView, AppError> {
    match row {
        Some(user) => Ok(user),
        None => Err(AppError::UserNotFound),
    }
}

/// A deletion that affected no row means that the user is missing.
pub open spec fn affected_or_missing(affected: u64) -> Result<(), AppError> {
    if affected == 0 {
        Err(AppError::UserNotFound)
    } else {
        Ok(())
    }
}

/// Some row has the identifier of a random UUID.
pub open spec fn holds_random_id(rows: Seq<UserView>) -> bool {
    exists|i: int| 0 <= i < rows.len() && is_random_uuid(#[trigger] rows[i].id)
}

/// What creating a user under `id` returns.
pub open spec fn create_result(rows: Seq<UserView>, id: u128, input: CreateUserView) -> Result<
    UserView,
    AppError,
> {
    if selected(rows, id) is Some {
        Err(AppError::Database)
    } else {
        Ok(created_row(id, input))
    }
}

/// What fetching the user with this identifier returns.
pub open spec fn get_result(rows: Seq<UserView>, id: u128) -> Result<UserView, AppError> {
    row_or_missing(selected(rows, id))
}

/// What a partial update of the user with this identifier returns.
pub open spec fn update_result(rows: Seq<UserView>, id: u128, change: UpdateUserView) -> Result<
    UserView,
    AppError,
> {
    row_or_missing(selected_after_update(rows, id, change, id))
}

/// What deleting the user with this identifier returns.
pub open spec fn delete_result(rows: Seq<UserView>, id: u128) -> Result<(), AppError> {
    affected_or_missing(deleted_count(rows, id))
}

/// The result of an insertion that returns the stored row.
pub fn inserted(row: Option<User>) -> (result: Result<User, AppError>)
    ensures
        user_result_view(result) == row_or_fault(view_of(row)),
{
    match row {
        Some(user) => Ok(user),
        None => Err(AppError::Database),
    }
}

/// The result of a selection or an update by identifier: the row, or
/// `UserNotFound` where the statement produced none.
pub fn found(row: Option<User>) -> (result: Result<User, AppError>)
    ensures
        user_result_view(result) == row_or_missing(view_of(row)),
{
    match row {
        Some(user) => Ok(user),
        None => Err(AppError::UserNotFound),
    }
}

/// The result of a deletion by identifier: `UserNotFound` where no row was
/// affected.
pub fn removed(affected: u64) -> (result: Result<(), AppError>)
    ensures
        result == affected_or_missing(affected),
{
    if affected == 0 {
        return Err(AppError::UserNotFound);
    }
    Ok(())
}

/// The only component that touches the table.
pub struct UserRepository {
    table: UserTable,
}

impl View for UserRepository {
    type V = Seq<UserView>;

    closed spec fn view(&self) -> Seq<UserView> {
        self.table@
    }
}

impl UserRepository {
    /// The repository's invariant: the rows obey the primary key.
    pub open spec fn wf(&self) -> bool {
        distinct_ids(self@)
    }

    /// A repository over the given table.
    pub fn new(table: UserTable) -> (repo: Self)
        requires
            table.wf(),
        ensures
            repo@ == table@,
            repo.wf(),
    {
        UserRepository { table }
    }

    /// Stores a new user under a random identifier and returns it. The
    /// insertion is refused, and nothing changes, in the one case that the
    /// identifier is already taken: so it succeeds wherever no stored
    /// identifier is a random UUID, as in an empty table.
    pub fn create_user(&mut self, payload: CreateUser) -> (result: Result<User, AppError>)
        requires
            old(self).wf(),
        ensures
            final(self).wf(),
            match result {
                Ok(user) => {
                    &&& is_random_uuid(user.id.value)
                    &&& !holds_id(old(self)@, user.id.value)
                    &&& user@ == created_row(user.id.value, payload@)
                    &&& final(self)@ == old(self)@.push(user@)
                    &&& forall|other: u128| #[trigger]
                        selected(final(self)@, other) == selected_after_insert(
                            old(self)@,
                            user@,
                            other,
                        )
                },
                Err(error) => {
                    &&& error == AppError::Database
                    &&& final(self)@ == old(self)@
                    &&& holds_random_id(old(self)@)
                },
            },
    {
        let id = UserId::generate();
        proof {
            if holds_id(self@, id.value) {
                let at = choose|i: int| 0 <= i < self@.len() && #[trigger] self@[i].id == id.value;
                assert(is_random_uuid(self@[at].id));
            }
        }
        self.create_user_as(id, payload)
    }

    /// Stores a new user under the given identifier and returns it; fails
    /// with `Database`, and changes nothing, where the identifier is taken.
    pub fn create_user_as(&mut self, id: UserId, payload: CreateUser) -> (result: Result<
        User,
        AppError,
    >)
        requires
            old(self).wf(),
        ensures
            final(self).wf(),
            final(self)@ == after_insert(old(self)@, created_row(id.value, payload@)),
            user_result_view(result) == create_result(old(self)@, id.value, payload@),
            forall|other: u128| #[trigger]
                selected(final(self)@, other) == selected_after_insert(
                    old(self)@,
                    created_row(id.value, payload@),
                    other,
                ),
    {
        let row = User { id, name: payload.name, email: payload.email };
        inserted(self.table.insert_row(row))
    }

    /// The user with this identifier, or `UserNotFound`.
    pub fn get_user(&self, id: UserId) -> (result: Result<User, AppError>)
        requires
            self.wf(),
        ensures
            user_result_view(result) == get_result(self@, id.value),
    {
        found(self.table.select_by_id(id))
    }

    /// Every user, in the table's order. An empty list is no error.
    pub fn get_users(&self) -> (result: Result<Vec<User>, AppError>)
        requires
            self.wf(),
        ensures
            users_result_view(result) == Ok::<Seq<UserView>, AppError>(self@),
    {
        Ok(self.table.select_all())
    }

    /// Replaces the fields that the payload holds in the user with this
    /// identifier and returns the user as it now is, or `UserNotFound`.
    pub fn update_user(&mut self, id: UserId, payload: UpdateUser) -> (result: Result<
        User,
        AppError,
    >)
        requires
            old(self).wf(),
        ensures
            final(self).wf(),
            final(self)@ == after_update(old(self)@, id.value, payload@),
            user_result_view(result) == update_result(old(self)@, id.value, payload@),
            forall|other: u128| #[trigger]
                selected(final(self)@, other) == selected_after_update(
                    old(self)@,
                    id.value,
                    payload@,
                    other,
                ),
    {
        found(self.table.update_coalesce(id, payload))
    }

    /// Removes the user with this identifier, or fails with `UserNotFound`.
    pub fn delete_user(&mut self, id: UserId) -> (result: Result<(), AppError>)
        requires
            old(self).wf(),
        ensures
            final(self).wf(),
            final(self)@ == after_delete(old(self)@, id.value),
            result == delete_result(old(self)@, id.value),
            forall|other: u128| #[trigger]
                selected(final(self)@, other) == selected_after_delete(
                    old(self)@,
                    id.value,
                    other,
                ),
    {
        removed(self.table.delete_by_id(id))
    }
}

} // verus!
