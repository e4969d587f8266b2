//! What holds of the service over every sequence of requests.

use vstd::prelude::*;
use crate::error::{
    AppError, STATUS_BAD_REQUEST, STATUS_CREATED, STATUS_NOT_FOUND, STATUS_NO_CONTENT, STATUS_OK,
};
use crate::handler::{
    apply, apply_at, failure, respond, respond_at, selected_after, BodyView, Request,
    ResponseView,
};
use crate::model::{coalesce, created_row, CreateUserView, UpdateUserView, UserView};
use crate::table::{
    distinct_ids, holds_id, index_of, lemma_delete_keeps_key, lemma_index_of,
    lemma_insert_keeps_key, lemma_selected_after_delete, lemma_selected_after_insert,
    lemma_selected_after_update, lemma_update_keeps_key, selected,
};

verus! {

/// The rows after a sequence of requests to a service that started empty.
pub open spec fn rows_after(history: Seq<Request>) -> Seq<UserView>
    decreases history.len(),
{
    if history.len() == 0 {
        Seq::empty()
    } else {
        apply(rows_after(history.drop_last()), history.last())
    }
}

/// The response to the last request of a history.
pub open spec fn last_response(history: Seq<Request>) -> ResponseView
    recommends
        history.len() > 0,
{
    respond(rows_after(history.drop_last()), history.last())
}

/// The identifier was handed out by a creation of this history that was
/// answered 201.
pub open spec fn issued(history: Seq<Request>, id: u128) -> bool
    decreases history.len(),
{
    if history.len() == 0 {
        false
    } else {
        issued(history.drop_last(), id) || (history.last() matches Request::Create {
            id: made,
            ..
        } && made == id && last_response(history).status == STATUS_CREATED)
    }
}

/// The number of requests of a history that were answered with this status.
pub open spec fn answered(history: Seq<Request>, status: u16) -> nat
    decreases history.len(),
{
    if history.len() == 0 {
        0
    } else {
        answered(history.drop_last(), status) + if last_response(history).status == status {
            1nat
        } else {
            0nat
        }
    }
}

/// Every request keeps the primary key.
pub proof fn lemma_request_keeps_key(rows: Seq<UserView>, request: Request)
    requires
        distinct_ids(rows),
    ensures
        distinct_ids(apply(rows, request)),
{
    match request {
        Request::Create { id, input } => lemma_insert_keeps_key(rows, created_row(id, input)),
        Request::Get { id } => {},
        Request::List => {},
        Request::Update { id, change } => lemma_update_keeps_key(rows, id, change),
        Request::Delete { id } => lemma_delete_keeps_key(rows, id),
    }
}

/// What a fetch finds after a request is what it found before, but for
/// the one user that the request created, changed or deleted.
pub proof fn lemma_selected_after(rows: Seq<UserView>, request: Request, id: u128)
    requires
        distinct_ids(rows),
    ensures
        selected(apply(rows, request), id) == selected_after(rows, request, id),
{
    match request {
        Request::Create { id: made, input } => lemma_selected_after_insert(
            rows,
            created_row(made, input),
            id,
        ),
        Request::Get { id: target } => {},
        Request::List => {},
        Request::Update { id: target, change } => lemma_selected_after_update(
            rows,
            target,
            change,
            id,
        ),
        Request::Delete { id: target } => lemma_selected_after_delete(rows, target, id),
    }
}

/// Whatever the requests were, no two stored users share an identifier.
pub proof fn lemma_history_keeps_key(history: Seq<Request>)
    ensures
        distinct_ids(rows_after(history)),
    decreases history.len(),
{
    if history.len() > 0 {
        lemma_history_keeps_key(history.drop_last());
        lemma_request_keeps_key(rows_after(history.drop_last()), history.last());
    }
}

/// A request adds at most the identifier of a creation that was answered
/// 201, and no other.
pub proof fn lemma_request_adds_only_created(rows: Seq<UserView>, request: Request, id: u128)
    requires
        holds_id(apply(rows, request), id),
    ensures
        holds_id(rows, id) || (request matches Request::Create { id: made, .. } && made == id
            && respond(rows, request).status == STATUS_CREATED),
{
    let next = apply(rows, request);
    let at = choose|i: int| 0 <= i < next.len() && #[trigger] next[i].id == id;
    match request {
        Request::Create { id: made, input } => {
            if !holds_id(rows, made) {
                if at < rows.len() {
                    assert(rows[at].id == id);
                }
            }
        },
        Request::Get { id: other } => {},
        Request::List => {},
        Request::Update { id: other, change } => {
            if holds_id(rows, other) {
                assert(rows[at].id == id);
            }
        },
        Request::Delete { id: other } => {
            if holds_id(rows, other) {
                let gone = index_of(rows, other);
                let from = if at < gone {
                    at
                } else {
                    at + 1
                };
                assert(rows[from].id == id);
            }
        },
    }
}

/// Every stored identifier was handed out by a creation that was answered
/// 201.
pub proof fn lemma_stored_id_was_issued(history: Seq<Request>, id: u128)
    requires
        holds_id(rows_after(history), id),
    ensures
        issued(history, id),
    decreases history.len(),
{
    if history.len() > 0 {
        let before = rows_after(history.drop_last());
        lemma_request_adds_only_created(before, history.last(), id);
        if holds_id(before, id) {
            lemma_stored_id_was_issued(history.drop_last(), id);
        }
    } else {
        assert(!holds_id(Seq::<UserView>::empty(), id));
    }
}

/// A creation is answered 201 exactly where its identifier is not stored,
/// and the identifier then differs from that of every stored user.
pub proof fn lemma_created_id_is_new(rows: Seq<UserView>, id: u128, input: CreateUserView)
    ensures
        respond(rows, (Request::Create { id, input })).status == STATUS_CREATED <==> !holds_id(
            rows,
            id,
        ),
        !holds_id(rows, id) ==> forall|i: int| 0 <= i < rows.len() ==> (#[trigger] rows[i]).id != id,
{
}

/// Fetching an identifier that no creation handed out is answered 404,
/// whatever the requests before were.
pub proof fn lemma_unissued_id_is_not_found(history: Seq<Request>, id: u128)
    requires
        !issued(history, id),
    ensures
        respond(rows_after(history), (Request::Get { id })) == failure(AppError::UserNotFound),
        respond(rows_after(history), (Request::Get { id })).status == STATUS_NOT_FOUND,
{
    if holds_id(rows_after(history), id) {
        lemma_stored_id_was_issued(history, id);
    }
}

/// After a creation that was answered 201, fetching the new identifier is
/// answered 200 with the identifier and the name and email that were sent.
pub proof fn lemma_created_user_is_fetched(rows: Seq<UserView>, id: u128, input: CreateUserView)
    requires
        distinct_ids(rows),
        respond(rows, (Request::Create { id, input })).status == STATUS_CREATED,
    ensures
        respond(rows, (Request::Create { id, input })).body == BodyView::User(
            created_row(id, input),
        ),
        respond(apply(rows, (Request::Create { id, input })), (Request::Get { id }))
            == (ResponseView { status: STATUS_OK, body: BodyView::User(created_row(id, input)) }),
{
    lemma_insert_keeps_key(rows, created_row(id, input));
}

/// A partial update of a stored user is answered 200 with the user as it
/// now is: each field that the change holds is replaced, each other field
/// and the identifier are kept, and every other user stays as it was. A
/// fetch then returns the same user.
pub proof fn lemma_update_keeps_absent_fields(
    rows: Seq<UserView>,
    id: u128,
    change: UpdateUserView,
)
    requires
        distinct_ids(rows),
        holds_id(rows, id),
    ensures
        ({
            let before = rows[index_of(rows, id)];
            let now = UserView {
                id,
                name: coalesce(change.name, before.name),
                email: coalesce(change.email, before.email),
            };
            &&& respond(rows, (Request::Update { id, change })) == (ResponseView {
                status: STATUS_OK,
                body: BodyView::User(now),
            })
            &&& respond(apply(rows, (Request::Update { id, change })), (Request::Get { id }))
                == (ResponseView { status: STATUS_OK, body: BodyView::User(now) })
            &&& change.name is None ==> now.name == before.name
            &&& change.email is None ==> now.email == before.email
        }),
        apply(rows, (Request::Update { id, change })).len() == rows.len(),
        forall|i: int|
            0 <= i < rows.len() && i != index_of(rows, id) ==> #[trigger] apply(
                rows,
                (Request::Update { id, change }),
            )[i] == rows[i],
{
    lemma_update_keeps_key(rows, id, change);
}

/// A partial update of an identifier that is not stored is answered 404 and
/// changes nothing.
pub proof fn lemma_update_of_missing_user(rows: Seq<UserView>, id: u128, change: UpdateUserView)
    requires
        !holds_id(rows, id),
    ensures
        respond(rows, (Request::Update { id, change })) == failure(AppError::UserNotFound),
        apply(rows, (Request::Update { id, change })) == rows,
{
}

/// Deleting a stored user is answered 204; fetching or deleting the same
/// identifier afterwards is answered 404.
pub proof fn lemma_deleted_user_is_gone(rows: Seq<UserView>, id: u128)
    requires
        distinct_ids(rows),
        holds_id(rows, id),
    ensures
        respond(rows, (Request::Delete { id })) == (ResponseView {
            status: STATUS_NO_CONTENT,
            body: BodyView::Empty,
        }),
        respond(apply(rows, (Request::Delete { id })), (Request::Get { id })) == failure(
            AppError::UserNotFound,
        ),
        respond(apply(rows, (Request::Delete { id })), (Request::Delete { id })) == failure(
            AppError::UserNotFound,
        ),
        failure(AppError::UserNotFound).status == STATUS_NOT_FOUND,
{
    lemma_delete_keeps_key(rows, id);
}

/// A request changes the number of stored users by one where it is a
/// creation answered 201 or a deletion answered 204, and not at all
/// otherwise.
pub proof fn lemma_request_count(rows: Seq<UserView>, request: Request)
    ensures
        apply(rows, request).len() == rows.len() + (if respond(rows, request).status
            == STATUS_CREATED {
            1int
        } else {
            0int
        }) - (if respond(rows, request).status == STATUS_NO_CONTENT {
            1int
        } else {
            0int
        }),
{
    match request {
        Request::Create { id, input } => {},
        Request::Get { id } => {},
        Request::List => {},
        Request::Update { id, change } => {},
        Request::Delete { id } => {},
    }
}

/// After any sequence of requests the number of stored users is the number
/// of creations answered 201 less the number of deletions answered 204.
pub proof fn lemma_history_count(history: Seq<Request>)
    ensures
        rows_after(history).len() == answered(history, STATUS_CREATED) - answered(
            history,
            STATUS_NO_CONTENT,
        ),
    decreases history.len(),
{
    if history.len() > 0 {
        lemma_history_count(history.drop_last());
        lemma_request_count(rows_after(history.drop_last()), history.last());
    }
}

/// Listing is answered 200 with exactly the stored users, and fetching the
/// identifier of any entry of the list is answered 200 with that entry.
pub proof fn lemma_list_matches_rows(rows: Seq<UserView>)
    requires
        distinct_ids(rows),
    ensures
        respond(rows, Request::List) == (ResponseView {
            status: STATUS_OK,
            body: BodyView::Users(rows),
        }),
        forall|i: int|
            0 <= i < rows.len() ==> respond(rows, (Request::Get { id: (#[trigger] rows[i]).id }))
                == (ResponseView { status: STATUS_OK, body: BodyView::User(rows[i]) }),
{
    assert forall|i: int| 0 <= i < rows.len() implies respond(
        rows,
        (Request::Get { id: (#[trigger] rows[i]).id }),
    ) == (ResponseView { status: STATUS_OK, body: BodyView::User(rows[i]) }) by {
        lemma_index_of(rows, i);
    }
}

/// A request whose path segment is no identifier is answered 400,
/// whatever the request and the stored users are.
pub proof fn lemma_malformed_id_is_bad_request(
    rows: Seq<UserView>,
    request: spec_fn(u128) -> Request,
)
    ensures
        respond_at(rows, None, request) == failure(AppError::Validation),
        respond_at(rows, None, request).status == STATUS_BAD_REQUEST,
        apply_at(rows, None, request) == rows,
{
}

} // verus!
