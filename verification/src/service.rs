//! The service: the layer between the handlers and the repository. It
//! delegates every operation unchanged.

use vstd::prelude::*;
use crate::error::AppError;
use crate::model::{created_row, CreateUser, UpdateUser, User, UserId, UserView};
use crate::ident::is_random_uuid;
use crate::repository::{
    create_result, delete_result, get_result, holds_random_id, update_result, user_result_view,
    users_result_view, UserRepository,
};
use crate::table::{
    after_delete, after_insert, after_update, distinct_ids, holds_id, selected,
    selected_after_delete, selected_after_insert, selected_after_update,
};

verus! {

/// The operations on users, as the handlers see them.
pub struct UserService {
    repo: UserRepository,
}

impl View for UserService {
    type V = Seq<UserView>;

    closed spec fn view(&self) -> Seq<UserView> {
        self.repo@
    }
}

impl UserService {
    /// The service's invariant: the rows obey the primary key.
    pub open spec fn wf(&self) -> bool {
        distinct_ids(self@)
    }

    /// A service over the given repository.
    pub fn new(repo: UserRepository) -> (service: Self)
        requires
            repo.wf(),
        ensures
            service@ == repo@,
            service.wf(),
    {
        UserService { repo }
    }

    /// Stores a new user under a random identifier and returns it. Fails
    /// with `Database`, and changes nothing, in the one case that the
    /// identifier is already taken: so it succeeds wherever no stored
    /// identifier is a random UUID, as in an empty table.
    pub fn create_user(&mut self, payload: CreateUser) -> (result: Result<User, AppError>)
        requires
            old(self).wf(),
        ensures
            final(self).wf(),
            match result {
                Ok(user) => {
                    &&& is_random_uuid(user.id.value)
                    &&& !holds_id(old(self)@, user.id.value)
                    &&& user@ == created_row(user.id.value, payload@)
                    &&& final(self)@ == old(self)@.push(user@)
                    &&& forall|other: u128| #[trigger]
                        selected(final(self)@, other) == selected_after_insert(
                            old(self)@,
                            user@,
                            other,
                        )
                },
                Err(error) => {
                    &&& error == AppError::Database
                    &&& final(self)@ == old(self)@
                    &&& holds_random_id(old(self)@)
                },
            },
    {
        self.repo.create_user(payload)
    }

    /// Stores a new user under the given identifier and returns it; fails
    /// with `Database`, and changes nothing, where the identifier is taken.
    pub fn create_user_as(&mut self, id: UserId, payload: CreateUser) -> (result: Result<
        User,
        AppError,
    >)
        requires
            old(self).wf(),
        ensures
            final(self).wf(),
            final(self)@ == after_insert(old(self)@, created_row(id.value, payload@)),
            user_result_view(result) == create_result(old(self)@, id.value, payload@),
            forall|other: u128| #[trigger]
                selected(final(self)@, other) == selected_after_insert(
                    old(self)@,
                    created_row(id.value, payload@),
                    other,
                ),
    {
        self.repo.create_user_as(id, payload)
    }

    /// The user with this identifier, or `UserNotFound`.
    pub fn get_user(&self, id: UserId) -> (result: Result<User, AppError>)
        requires
            self.wf(),
        ensures
            user_result_view(result) == get_result(self@, id.value),
    {
        self.repo.get_user(id)
    }

    /// Every user, in the table's order. An empty list is no error.
    pub fn get_users(&self) -> (result: Result<Vec<User>, AppError>)
        requires
            self.wf(),
        ensures
            users_result_view(result) == Ok::<Seq<UserView>, AppError>(self@),
    {
        self.repo.get_users()
    }

    /// Replaces the fields that the payload holds in the user with this
    /// identifier and returns the user as it now is, or `UserNotFound`.
    pub fn update_user(&mut self, id: UserId, payload: UpdateUser) -> (result: Result<
        User,
        AppError,
    >)
        requires
            old(self).wf(),
        ensures
            final(self).wf(),
            final(self)@ == after_update(old(self)@, id.value, payload@),
            user_result_view(result) == update_result(old(self)@, id.value, payload@),
            forall|other: u128| #[trigger]
                selected(final(self)@, other) == selected_after_update(
                    old(self)@,
                    id.value,
                    payload@,
                    other,
                ),
    {
        self.repo.update_user(id, payload)
    }

    /// Removes the user with this identifier, or fails with `UserNotFound`.
    pub fn delete_user(&mut self, id: UserId) -> (result: Result<(), AppError>)
        requires
            old(self).wf(),
        ensures
            final(self).wf(),
            final(self)@ == after_delete(old(self)@, id.value),
            result == delete_result(old(self)@, id.value),
            forall|other: u128| #[trigger]
                selected(final(self)@, other) == selected_after_delete(
                    old(self)@,
                    id.value,
                    other,
                ),
    {
        self.repo.delete_user(id)
    }
}

} // verus!
