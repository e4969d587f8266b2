use users_api::error::AppError;
use users_api::handler::{
    create_user, create_user_as, delete_user, delete_user_at, get_user, get_user_at, get_users,
    update_user, update_user_at, AppState, Body, Response,
};
use users_api::model::{CreateUser, UpdateUser, User, UserId};
use users_api::repository::UserRepository;
use users_api::service::UserService;
use users_api::table::UserTable;

fn empty_state() -> AppState {
    AppState { user_service: UserService::new(UserRepository::new(UserTable::new())) }
}

fn new_user(name: &str, email: &str) -> CreateUser {
    CreateUser { name: name.to_string(), email: email.to_string() }
}

fn stored(response: Response) -> User {
    match response.body {
        Body::User(user) => user,
        other => panic!("expected a user, got {:?}", other),
    }
}

fn listed(response: Response) -> Vec<User> {
    match response.body {
        Body::Users(users) => users,
        other => panic!("expected a list, got {:?}", other),
    }
}

fn text_of(id: UserId) -> String {
    uuid::Uuid::from_u128(id.value).to_string()
}

fn not_found() -> Response {
    Response { status: 404, body: Body::Error(AppError::UserNotFound) }
}

fn bad_request() -> Response {
    Response { status: 400, body: Body::Error(AppError::Validation) }
}

#[test]
fn create_answers_201_with_a_fresh_version_4_identifier() {
    let mut state = empty_state();
    let first = create_user(&mut state, new_user("Ada", "ada@example.com"));
    assert_eq!(first.status, 201);
    let first = stored(first);
    assert_eq!(first.name, "Ada");
    assert_eq!(first.email, "ada@example.com");
    let as_uuid = uuid::Uuid::from_u128(first.id.value);
    assert_eq!(as_uuid.get_version_num(), 4);
    assert_eq!(as_uuid.get_variant(), uuid::Variant::RFC4122);
    assert_eq!(
        first.id.value & 0x0000_0000_0000_F000_C000_0000_0000_0000u128,
        0x0000_0000_0000_4000_8000_0000_0000_0000u128
    );

    let second = create_user(&mut state, new_user("Ada", "ada@example.com"));
    assert_eq!(second.status, 201);
    assert_ne!(stored(second).id, first.id);
}

#[test]
fn many_creates_never_share_an_identifier() {
    let mut state = empty_state();
    let mut seen: Vec<UserId> = Vec::new();
    for round in 0..500 {
        let response = create_user(&mut state, new_user("n", "e"));
        assert_eq!(response.status, 201, "round {}", round);
        let id = stored(response).id;
        assert!(!seen.contains(&id));
        seen.push(id);
    }
    assert_eq!(listed(get_users(&state)).len(), 500);
}

#[test]
fn create_under_a_taken_identifier_answers_500_and_changes_nothing() {
    let mut state = empty_state();
    let id = UserId { value: 7 };
    let first = create_user_as(&mut state, id, new_user("Ada", "ada@example.com"));
    assert_eq!(first.status, 201);
    let second = create_user_as(&mut state, id, new_user("Eve", "eve@example.com"));
    assert_eq!(second, Response { status: 500, body: Body::Error(AppError::Database) });
    let users = listed(get_users(&state));
    assert_eq!(
        users,
        vec![User { id, name: "Ada".to_string(), email: "ada@example.com".to_string() }]
    );
}

#[test]
fn get_of_an_identifier_that_was_never_issued_answers_404() {
    let mut state = empty_state();
    assert_eq!(get_user(&state, UserId { value: 1 }), not_found());
    let made = stored(create_user(&mut state, new_user("Ada", "ada@example.com"))).id;
    let other = UserId { value: made.value ^ 1 };
    assert_eq!(get_user(&state, other), not_found());
    assert_eq!(get_user_at(&state, "00000000-0000-0000-0000-000000000000"), not_found());
}

#[test]
fn created_user_is_returned_by_get() {
    let mut state = empty_state();
    let created = create_user(&mut state, new_user("Ada", "ada@example.com"));
    assert_eq!(created.status, 201);
    let u1 = stored(created).id;
    let expected = Response {
        status: 200,
        body: Body::User(User {
            id: u1,
            name: "Ada".to_string(),
            email: "ada@example.com".to_string(),
        }),
    };
    assert_eq!(get_user(&state, u1), expected);
    assert_eq!(get_user_at(&state, &text_of(u1)), expected);
}

#[test]
fn partial_update_keeps_the_fields_it_does_not_name() {
    let mut state = empty_state();
    let id = stored(create_user(&mut state, new_user("Ada", "ada@example.com"))).id;
    let other = stored(create_user(&mut state, new_user("Bob", "bob@example.com"))).id;

    let renamed =
        update_user(&mut state, id, UpdateUser { name: Some("Grace".to_string()), email: None });
    let expected = User {
        id,
        name: "Grace".to_string(),
        email: "ada@example.com".to_string(),
    };
    assert_eq!(renamed.status, 200);
    assert_eq!(stored(renamed), expected);
    assert_eq!(stored(get_user(&state, id)), expected);

    let moved = update_user(
        &mut state,
        id,
        UpdateUser { name: None, email: Some("grace@example.com".to_string()) },
    );
    let expected = User {
        id,
        name: "Grace".to_string(),
        email: "grace@example.com".to_string(),
    };
    assert_eq!(stored(moved), expected);

    let untouched = update_user(&mut state, id, UpdateUser { name: None, email: None });
    assert_eq!(untouched.status, 200);
    assert_eq!(stored(untouched), expected);

    let both = update_user_at(
        &mut state,
        &text_of(id),
        UpdateUser { name: Some("".to_string()), email: Some("g@example.com".to_string()) },
    );
    assert_eq!(
        stored(both),
        User { id, name: "".to_string(), email: "g@example.com".to_string() }
    );

    assert_eq!(
        stored(get_user(&state, other)),
        User { id: other, name: "Bob".to_string(), email: "bob@example.com".to_string() }
    );
    assert_eq!(listed(get_users(&state)).len(), 2);
}

#[test]
fn update_of_a_missing_user_answers_404_and_changes_nothing() {
    let mut state = empty_state();
    let id = stored(create_user(&mut state, new_user("Ada", "ada@example.com"))).id;
    let missing = UserId { value: id.value ^ 1 };
    let response = update_user(
        &mut state,
        missing,
        UpdateUser { name: Some("Grace".to_string()), email: None },
    );
    assert_eq!(response, not_found());
    assert_eq!(
        listed(get_users(&state)),
        vec![User { id, name: "Ada".to_string(), email: "ada@example.com".to_string() }]
    );
}

#[test]
fn delete_answers_204_and_then_404() {
    let mut state = empty_state();
    let id = stored(create_user(&mut state, new_user("Ada", "ada@example.com"))).id;
    assert_eq!(delete_user(&mut state, id), Response { status: 204, body: Body::Empty });
    assert_eq!(get_user(&state, id), not_found());
    assert_eq!(delete_user(&mut state, id), not_found());
    assert_eq!(delete_user_at(&mut state, &text_of(id)), not_found());
    assert_eq!(listed(get_users(&state)), Vec::<User>::new());
}

#[test]
fn delete_through_the_path_segment_removes_the_user() {
    let mut state = empty_state();
    let id = stored(create_user(&mut state, new_user("Ada", "ada@example.com"))).id;
    let segment = text_of(id);
    assert_eq!(delete_user_at(&mut state, &segment), Response { status: 204, body: Body::Empty });
    assert_eq!(get_user_at(&state, &segment), not_found());
}

#[test]
fn list_of_an_empty_service_answers_200_with_no_entries() {
    let state = empty_state();
    assert_eq!(get_users(&state), Response { status: 200, body: Body::Users(Vec::new()) });
}

#[test]
fn list_holds_the_users_that_were_created_and_not_deleted() {
    let mut state = empty_state();
    let mut ids: Vec<UserId> = Vec::new();
    for n in 0..7 {
        let payload = new_user(&format!("user{}", n), &format!("user{}@example.com", n));
        ids.push(stored(create_user(&mut state, payload)).id);
    }
    for n in [1usize, 4, 6] {
        assert_eq!(delete_user(&mut state, ids[n]).status, 204);
    }
    let response = get_users(&state);
    assert_eq!(response.status, 200);
    let users = listed(response);
    assert_eq!(users.len(), 7 - 3);
    let kept = [0usize, 2, 3, 5];
    for (place, n) in kept.iter().enumerate() {
        let expected = User {
            id: ids[*n],
            name: format!("user{}", n),
            email: format!("user{}@example.com", n),
        };
        assert_eq!(users[place], expected);
        assert_eq!(stored(get_user(&state, ids[*n])), expected);
    }
    for n in [1usize, 4, 6] {
        assert_eq!(get_user(&state, ids[n]), not_found());
    }
}

#[test]
fn malformed_path_identifier_answers_400() {
    let mut state = empty_state();
    let id = stored(create_user(&mut state, new_user("Ada", "ada@example.com"))).id;
    let before = listed(get_users(&state));
    for segment in ["", "u1", "not-a-uuid", "123", "67e55044-10b1-426f-9247-bb680e5fe0c", "zzzzzzzz-zzzz-zzzz-zzzz-zzzzzzzzzzzz"] {
        assert_eq!(get_user_at(&state, segment), bad_request(), "{}", segment);
        assert_eq!(
            update_user_at(
                &mut state,
                segment,
                UpdateUser { name: Some("Grace".to_string()), email: None }
            ),
            bad_request()
        );
        assert_eq!(delete_user_at(&mut state, segment), bad_request());
    }
    assert_eq!(listed(get_users(&state)), before);
    assert_eq!(get_user(&state, id).status, 200);
}
