//! The HTTP boundary: each handler takes the decoded parts of a request,
//! calls the service and maps the outcome to a status and a body.

use vstd::prelude::*;
use crate::error::{
    status_of, AppError, STATUS_CREATED, STATUS_NO_CONTENT, STATUS_OK,
};
use crate::ident::{id_of, is_random_uuid, uuid_parse};
use crate::model::{
    created_row, views_of, CreateUser, CreateUserView, UpdateUser, UpdateUserView, User, UserId,
    UserView,
};
use crate::repository::{
    create_result, delete_result, get_result, holds_random_id, update_result, user_result_view,
    users_result_view,
};
use crate::service::UserService;
use crate::table::{
    after_delete, after_insert, after_update, distinct_ids, holds_id, selected,
    selected_after_delete, selected_after_insert, selected_after_update,
};

verus! {

/// What a response carries.
#[derive(Debug, PartialEq, Eq)]
pub enum Body {
    /// Nothing.
    Empty,
    /// One user.
    User(User),
    /// A list of users.
    Users(Vec<User>),
    /// The error that the request ended in.
    Error(AppError),
}

/// What a [`Body`] holds, as mathematical values.
pub ghost enum BodyView {
    Empty,
    User(UserView),
    Users(Seq<UserView>),
    Error(AppError),
}

impl View for Body {
    type V = BodyView;

    open spec fn view(&self) -> BodyView {
        match self {
            Body::Empty => BodyView::Empty,
            Body::User(user) => BodyView::User(user@),
            Body::Users(users) => BodyView::Users(views_of(users@)),
            Body::Error(error) => BodyView::Error(*error),
        }
    }
}

/// A response: the status and the body.
#[derive(Debug, PartialEq, Eq)]
pub struct Response {
    pub status: u16,
    pub body: Body,
}

/// What a [`Response`] holds, as mathematical values.
pub ghost struct ResponseView {
    pub status: u16,
    pub body: BodyView,
}

impl View for Response {
    type V = ResponseView;

    open spec fn view(&self) -> ResponseView {
        ResponseView { status: self.status, body: self.body@ }
    }
}

/// The response to a request that ended in an error.
pub open spec fn failure(error: AppError) -> ResponseView {
    ResponseView { status: status_of(error), body: BodyView::Error(error) }
}

/// The response to a request for one user: the given status with the user
/// on success.
pub open spec fn user_response(status: u16, result: Result<UserView, AppError>) -> ResponseView {
    match result {
        Ok(user) => ResponseView { status, body: BodyView::User(user) },
        Err(error) => failure(error),
    }
}

/// The response to a request for the list: 200 with the users on success.
pub open spec fn users_response(result: Result<Seq<UserView>, AppError>) -> ResponseView {
    match result {
        Ok(users) => ResponseView { status: STATUS_OK, body: BodyView::Users(users) },
        Err(error) => failure(error),
    }
}

/// The response to a deletion: 204 without a body on success.
pub open spec fn empty_response(result: Result<(), AppError>) -> ResponseView {
    match result {
        Ok(_) => ResponseView { status: STATUS_NO_CONTENT, body: BodyView::Empty },
        Err(error) => failure(error),
    }
}

/// The identifier that a path segment stands for, or `Validation` where it
/// stands for none.
pub open spec fn id_or_invalid(parsed: Option<UserId>) -> Result<UserId, AppError> {
    match parsed {
        Some(id) => Ok(id),
        None => Err(AppError::Validation),
    }
}

/// A request whose parts have been decoded. A creation carries the
/// identifier that was generated for it.
pub ghost enum Request {
    Create { id: u128, input: CreateUserView },
    Get { id: u128 },
    List,
    Update { id: u128, change: UpdateUserView },
    Delete { id: u128 },
}

/// The rows after a request.
pub open spec fn apply(rows: Seq<UserView>, request: Request) -> Seq<UserView> {
    match request {
        Request::Create { id, input } => after_insert(rows, created_row(id, input)),
        Request::Get { id } => rows,
        Request::List => rows,
        Request::Update { id, change } => after_update(rows, id, change),
        Request::Delete { id } => after_delete(rows, id),
    }
}

/// What fetching `id` finds after a request.
pub open spec fn selected_after(rows: Seq<UserView>, request: Request, id: u128) -> Option<
    UserView,
> {
    match request {
        Request::Create { id: made, input } => selected_after_insert(
            rows,
            created_row(made, input),
            id,
        ),
        Request::Get { id: target } => selected(rows, id),
        Request::List => selected(rows, id),
        Request::Update { id: target, change } => selected_after_update(rows, target, change, id),
        Request::Delete { id: target } => selected_after_delete(rows, target, id),
    }
}

/// The response to a request.
pub open spec fn respond(rows: Seq<UserView>, request: Request) -> ResponseView {
    match request {
        Request::Create { id, input } => user_response(
            STATUS_CREATED,
            create_result(rows, id, input),
        ),
        Request::Get { id } => user_response(STATUS_OK, get_result(rows, id)),
        Request::List => users_response(Ok(rows)),
        Request::Update { id, change } => user_response(
            STATUS_OK,
            update_result(rows, id, change),
        ),
        Request::Delete { id } => empty_response(delete_result(rows, id)),
    }
}

/// The response to a request whose path segment was read as `parsed`: 400
/// where it is no identifier.
pub open spec fn respond_at(
    rows: Seq<UserView>,
    parsed: Option<u128>,
    request: spec_fn(u128) -> Request,
) -> ResponseView {
    match parsed {
        Some(id) => respond(rows, request(id)),
        None => failure(AppError::Validation),
    }
}

/// The rows after a request whose path segment was read as `parsed`:
/// unchanged where it is no identifier.
pub open spec fn apply_at(
    rows: Seq<UserView>,
    parsed: Option<u128>,
    request: spec_fn(u128) -> Request,
) -> Seq<UserView> {
    match parsed {
        Some(id) => apply(rows, request(id)),
        None => rows,
    }
}

impl Response {
    /// The response to a request that ended in this error: the error's
    /// status, with the error as the body.
    pub fn from_error(error: AppError) -> (response: Response)
        ensures
            response@ == failure(error),
    {
        Response { status: error.status_code(), body: Body::Error(error) }
    }

    /// The response that carries one user under the given status, or the
    /// error's response.
    pub fn from_user(status: u16, result: Result<User, AppError>) -> (response: Response)
        ensures
            response@ == user_response(status, user_result_view(result)),
    {
        match result {
            Ok(user) => Response { status, body: Body::User(user) },
            Err(error) => Response::from_error(error),
        }
    }

    /// The response that carries the list of users under 200, or the
    /// error's response.
    pub fn from_users(result: Result<Vec<User>, AppError>) -> (response: Response)
        ensures
            response@ == users_response(users_result_view(result)),
    {
        match result {
            Ok(users) => Response { status: STATUS_OK, body: Body::Users(users) },
            Err(error) => Response::from_error(error),
        }
    }

    /// The response to a deletion: 204 without a body, or the error's
    /// response.
    pub fn from_deletion(result: Result<(), AppError>) -> (response: Response)
        ensures
            response@ == empty_response(result),
    {
        match result {
            Ok(_) => Response { status: STATUS_NO_CONTENT, body: Body::Empty },
            Err(error) => Response::from_error(error),
        }
    }
}

/// What the handlers share.
pub struct AppState {
    pub user_service: UserService,
}

impl View for AppState {
    type V = Seq<UserView>;

    open spec fn view(&self) -> Seq<UserView> {
        self.user_service@
    }
}

impl AppState {
    /// The state's invariant: the rows obey the primary key.
    pub open spec fn wf(&self) -> bool {
        distinct_ids(self@)
    }
}

/// Decodes the identifier in a path segment.
pub fn decode_id(segment: &str) -> (decoded: Result<UserId, AppError>)
    ensures
        decoded == id_or_invalid(id_of(uuid_parse(segment@))),
{
    required_id(UserId::parse(segment))
}

/// The identifier that was read from a path segment, or `Validation` where
/// none was.
pub fn required_id(parsed: Option<UserId>) -> (decoded: Result<UserId, AppError>)
    ensures
        decoded == id_or_invalid(parsed),
{
    match parsed {
        Some(id) => Ok(id),
        None => Err(AppError::Validation),
    }
}

/// `POST /users`: creates a user under a random identifier. Answers 201
/// with the stored user; answers 500, and changes nothing, in the one case
/// that the identifier is already taken, which needs a stored identifier
/// that is a random UUID.
pub fn create_user(state: &mut AppState, payload: CreateUser) -> (response: Response)
    requires
        old(state).wf(),
    ensures
        final(state).wf(),
        match response@.body {
            BodyView::User(user) => {
                &&& is_random_uuid(user.id)
                &&& !holds_id(old(state)@, user.id)
                &&& response@ == respond(
                    old(state)@,
                    (Request::Create { id: user.id, input: payload@ }),
                )
                &&& response@.status == STATUS_CREATED
                &&& user == created_row(user.id, payload@)
                &&& final(state)@ == old(state)@.push(user)
                &&& forall|other: u128| #[trigger]
                    selected(final(state)@, other) == selected_after(
                        old(state)@,
                        (Request::Create { id: user.id, input: payload@ }),
                        other,
                    )
            },
            _ => {
                &&& response@ == failure(AppError::Database)
                &&& final(state)@ == old(state)@
                &&& holds_random_id(old(state)@)
            },
        },
{
    let result = state.user_service.create_user(payload);
    Response::from_user(STATUS_CREATED, result)
}

/// `POST /users` with the identifier chosen by the caller: answers 201 with
/// the stored user, or 500, changing nothing, where the identifier is taken.
pub fn create_user_as(state: &mut AppState, id: UserId, payload: CreateUser) -> (response:
    Response)
    requires
        old(state).wf(),
    ensures
        final(state).wf(),
        final(state)@ == apply(old(state)@, (Request::Create { id: id.value, input: payload@ })),
        response@ == respond(old(state)@, (Request::Create { id: id.value, input: payload@ })),
        forall|other: u128| #[trigger]
            selected(final(state)@, other) == selected_after(old(state)@, (Request::Create { id: id.value, input: payload@ }), other),
{
    let result = state.user_service.create_user_as(id, payload);
    Response::from_user(STATUS_CREATED, result)
}

/// `GET /users/{id}`: answers 200 with the user, or 404 where there is none.
pub fn get_user(state: &AppState, id: UserId) -> (response: Response)
    requires
        state.wf(),
    ensures
        response@ == respond(state@, (Request::Get { id: id.value })),
{
    let result = state.user_service.get_user(id);
    Response::from_user(STATUS_OK, result)
}

/// `GET /users`: answers 200 with every user; the list may be empty.
pub fn get_users(state: &AppState) -> (response: Response)
    requires
        state.wf(),
    ensures
        response@ == respond(state@, Request::List),
{
    let result = state.user_service.get_users();
    Response::from_users(result)
}

/// `PUT /users/{id}`: replaces the fields that the payload holds. Answers
/// 200 with the user as it now is, or 404 where there is none.
pub fn update_user(state: &mut AppState, id: UserId, payload: UpdateUser) -> (response:
    Response)
    requires
        old(state).wf(),
    ensures
        final(state).wf(),
        final(state)@ == apply(old(state)@, (Request::Update { id: id.value, change: payload@ })),
        response@ == respond(old(state)@, (Request::Update { id: id.value, change: payload@ })),
        forall|other: u128| #[trigger]
            selected(final(state)@, other) == selected_after(old(state)@, (Request::Update { id: id.value, change: payload@ }), other),
{
    let result = state.user_service.update_user(id, payload);
    Response::from_user(STATUS_OK, result)
}

/// `DELETE /users/{id}`: answers 204 without a body, or 404 where there is
/// no such user.
pub fn delete_user(state: &mut AppState, id: UserId) -> (response: Response)
    requires
        old(state).wf(),
    ensures
        final(state).wf(),
        final(state)@ == apply(old(state)@, (Request::Delete { id: id.value })),
        response@ == respond(old(state)@, (Request::Delete { id: id.value })),
        forall|other: u128| #[trigger]
            selected(final(state)@, other) == selected_after(old(state)@, (Request::Delete { id: id.value }), other),
{
    let result = state.user_service.delete_user(id);
    Response::from_deletion(result)
}

/// `GET /users/{id}` from the raw path segment: answers 400 where the
/// segment is no identifier, and as [`get_user`] otherwise.
pub fn get_user_at(state: &AppState, segment: &str) -> (response: Response)
    requires
        state.wf(),
    ensures
        response@ == respond_at(state@, uuid_parse(segment@), (|id: u128| Request::Get { id })),
{
    match decode_id(segment) {
        Ok(id) => get_user(state, id),
        Err(error) => Response::from_error(error),
    }
}

/// `PUT /users/{id}` from the raw path segment: answers 400, and changes
/// nothing, where the segment is no identifier, and as [`update_user`]
/// otherwise.
pub fn update_user_at(state: &mut AppState, segment: &str, payload: UpdateUser) -> (response:
    Response)
    requires
        old(state).wf(),
    ensures
        final(state).wf(),
        final(state)@ == apply_at(
            old(state)@,
            uuid_parse(segment@),
            (|id: u128| Request::Update { id, change: payload@ }),
        ),
        response@ == respond_at(
            old(state)@,
            uuid_parse(segment@),
            (|id: u128| Request::Update { id, change: payload@ }),
        ),
{
    match decode_id(segment) {
        Ok(id) => update_user(state, id, payload),
        Err(error) => Response::from_error(error),
    }
}

/// `DELETE /users/{id}` from the raw path segment: answers 400, and changes
/// nothing, where the segment is no identifier, and as [`delete_user`]
/// otherwise.
pub fn delete_user_at(state: &mut AppState, segment: &str) -> (response: Response)
    requires
        old(state).wf(),
    ensures
        final(state).wf(),
        final(state)@ == apply_at(
            old(state)@,
            uuid_parse(segment@),
            (|id: u128| Request::Delete { id }),
        ),
        response@ == respond_at(
            old(state)@,
            uuid_parse(segment@),
            (|id: u128| Request::Delete { id }),
        ),
{
    match decode_id(segment) {
        Ok(id) => delete_user(state, id),
        Err(error) => Response::from_error(error),
    }
}

} // verus!
