//! The user record and the two input shapes.

use vstd::prelude::*;

verus! {

/// The identifier of a user: the 128 bits of a UUID, most significant first.
#[derive(Clone, Copy, PartialEq, Eq, Structural, Debug, Hash)]
pub struct UserId {
    pub value: u128,
}

/// What a [`User`] holds, as mathematical values.
pub ghost struct UserView {
    pub id: u128,
    pub name: Seq<char>,
    pub email: Seq<char>,
}

/// A stored user. Every field is always present.
#[derive(Debug, PartialEq, Eq)]
pub struct User {
    pub id: UserId,
    pub name: String,
    pub email: String,
}

impl View for User {
    type V = UserView;

    open spec fn view(&self) -> UserView {
        UserView { id: self.id.value, name: self.name@, email: self.email@ }
    }
}

impl Clone for User {
    fn clone(&self) -> (copy: Self)
        ensures
            copy@ == self@,
    {
        User { id: self.id, name: self.name.clone(), email: self.email.clone() }
    }
}

/// What a [`CreateUser`] holds, as mathematical values.
pub ghost struct CreateUserView {
    pub name: Seq<char>,
    pub email: Seq<char>,
}

/// The input of a creation: both fields are required, the identifier is
/// assigned when the row is inserted.
#[derive(Debug, PartialEq, Eq)]
pub struct CreateUser {
    pub name: String,
    pub email: String,
}

impl View for CreateUser {
    type V = CreateUserView;

    open spec fn view(&self) -> CreateUserView {
        CreateUserView { name: self.name@, email: self.email@ }
    }
}

/// What an [`UpdateUser`] holds, as mathematical values.
pub ghost struct UpdateUserView {
    pub name: Option<Seq<char>>,
    pub email: Option<Seq<char>>,
}

/// The input of a partial update: an absent field keeps its stored value.
#[derive(Debug, PartialEq, Eq)]
pub struct UpdateUser {
    pub name: Option<String>,
    pub email: Option<String>,
}

impl View for UpdateUser {
    type V = UpdateUserView;

    open spec fn view(&self) -> UpdateUserView {
        UpdateUserView {
            name: match self.name {
                Some(text) => Some(text@),
                None => None,
            },
            email: match self.email {
                Some(text) => Some(text@),
                None => None,
            },
        }
    }
}

/// The stored value of a column after a partial update: the new value where
/// one was given, the current one otherwise.
pub open spec fn coalesce(given: Option<Seq<char>>, current: Seq<char>) -> Seq<char> {
    match given {
        Some(text) => text,
        None => current,
    }
}

/// The row that a partial update leaves in place of `row`.
pub open spec fn updated_row(row: UserView, change: UpdateUserView) -> UserView {
    UserView {
        id: row.id,
        name: coalesce(change.name, row.name),
        email: coalesce(change.email, row.email),
    }
}

/// The row that a creation stores under `id`.
pub open spec fn created_row(id: u128, input: CreateUserView) -> UserView {
    UserView { id, name: input.name, email: input.email }
}

/// The view of a row that may be absent.
pub open spec fn view_of(row: Option<User>) -> Option<UserView> {
    match row {
        Some(user) => Some(user@),
        None => None,
    }
}

/// The views of a sequence of users, in the same order.
pub open spec fn views_of(users: Seq<User>) -> Seq<UserView> {
    users.map_values(|user: User| user@)
}

} // verus!
