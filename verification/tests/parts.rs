use users_api::error::AppError;
use users_api::handler::{decode_id, required_id, Body, Response};
use users_api::model::{CreateUser, UpdateUser, User, UserId};
use users_api::repository::{found, inserted, removed, UserRepository};
use users_api::service::UserService;
use users_api::table::UserTable;

fn ada(id: u128) -> User {
    User { id: UserId { value: id }, name: "Ada".to_string(), email: "ada@example.com".to_string() }
}

#[test]
fn each_error_has_its_status() {
    assert_eq!(AppError::UserNotFound.status_code(), 404);
    assert_eq!(AppError::Validation.status_code(), 400);
    assert_eq!(AppError::Database.status_code(), 500);
}

#[test]
fn parse_reads_the_bits_of_a_uuid() {
    let expected = Some(UserId { value: 0x67e55044_10b1_426f_9247_bb680e5fe0c8 });
    assert_eq!(UserId::parse("67e55044-10b1-426f-9247-bb680e5fe0c8"), expected);
    assert_eq!(UserId::parse("67E55044-10B1-426F-9247-BB680E5FE0C8"), expected);
    assert_eq!(UserId::parse("67e5504410b1426f9247bb680e5fe0c8"), expected);
    assert_eq!(UserId::parse("{67e55044-10b1-426f-9247-bb680e5fe0c8}"), expected);
    assert_eq!(UserId::parse("urn:uuid:67e55044-10b1-426f-9247-bb680e5fe0c8"), expected);
    assert_eq!(
        UserId::parse("00000000-0000-0000-0000-000000000001"),
        Some(UserId { value: 1 })
    );
}

#[test]
fn parse_rejects_what_is_no_uuid() {
    assert_eq!(UserId::parse(""), None);
    assert_eq!(UserId::parse("not-a-uuid"), None);
    assert_eq!(UserId::parse("67e55044-10b1-426f-9247-bb680e5fe0c"), None);
    assert_eq!(UserId::parse("67e55044-10b1-426f-9247-bb680e5fe0c8a"), None);
    assert_eq!(UserId::parse("67e55044+10b1-426f-9247-bb680e5fe0c8"), None);
    assert_eq!(UserId::parse("g7e55044-10b1-426f-9247-bb680e5fe0c8"), None);
}

#[test]
fn generate_sets_version_and_variant() {
    for _ in 0..64 {
        let id = UserId::generate();
        assert_eq!((id.value >> 76) & 0xf, 4);
        assert_eq!((id.value >> 62) & 0x3, 2);
    }
    assert_ne!(UserId::generate(), UserId::generate());
}

#[test]
fn decode_id_gives_the_identifier_or_a_validation_error() {
    assert_eq!(
        decode_id("67e55044-10b1-426f-9247-bb680e5fe0c8"),
        Ok(UserId { value: 0x67e55044_10b1_426f_9247_bb680e5fe0c8 })
    );
    assert_eq!(decode_id("67e55044"), Err(AppError::Validation));
    assert_eq!(required_id(Some(UserId { value: 9 })), Ok(UserId { value: 9 }));
    assert_eq!(required_id(None), Err(AppError::Validation));
}

#[test]
fn statement_outcomes_become_domain_results() {
    assert_eq!(inserted(Some(ada(1))), Ok(ada(1)));
    assert_eq!(inserted(None), Err(AppError::Database));
    assert_eq!(found(Some(ada(1))), Ok(ada(1)));
    assert_eq!(found(None), Err(AppError::UserNotFound));
    assert_eq!(removed(0), Err(AppError::UserNotFound));
    assert_eq!(removed(1), Ok(()));
    assert_eq!(removed(2), Ok(()));
    assert_eq!(removed(u64::MAX), Ok(()));
}

#[test]
fn results_become_responses() {
    assert_eq!(
        Response::from_error(AppError::UserNotFound),
        Response { status: 404, body: Body::Error(AppError::UserNotFound) }
    );
    assert_eq!(
        Response::from_error(AppError::Validation),
        Response { status: 400, body: Body::Error(AppError::Validation) }
    );
    assert_eq!(
        Response::from_error(AppError::Database),
        Response { status: 500, body: Body::Error(AppError::Database) }
    );
    assert_eq!(
        Response::from_user(201, Ok(ada(1))),
        Response { status: 201, body: Body::User(ada(1)) }
    );
    assert_eq!(
        Response::from_user(200, Err(AppError::UserNotFound)),
        Response { status: 404, body: Body::Error(AppError::UserNotFound) }
    );
    assert_eq!(
        Response::from_users(Ok(vec![ada(1), ada(2)])),
        Response { status: 200, body: Body::Users(vec![ada(1), ada(2)]) }
    );
    assert_eq!(
        Response::from_users(Err(AppError::Database)),
        Response { status: 500, body: Body::Error(AppError::Database) }
    );
    assert_eq!(Response::from_deletion(Ok(())), Response { status: 204, body: Body::Empty });
    assert_eq!(
        Response::from_deletion(Err(AppError::UserNotFound)),
        Response { status: 404, body: Body::Error(AppError::UserNotFound) }
    );
}

#[test]
fn table_runs_each_statement() {
    let mut table = UserTable::new();
    assert_eq!(table.len(), 0);
    assert_eq!(table.insert_row(ada(1)), Some(ada(1)));
    assert_eq!(table.insert_row(ada(2)), Some(ada(2)));
    assert_eq!(table.insert_row(ada(1)), None);
    assert_eq!(table.len(), 2);
    assert_eq!(table.select_by_id(UserId { value: 2 }), Some(ada(2)));
    assert_eq!(table.select_by_id(UserId { value: 3 }), None);
    assert_eq!(table.select_all(), vec![ada(1), ada(2)]);

    let change = UpdateUser { name: None, email: Some("a@b".to_string()) };
    let expected =
        User { id: UserId { value: 1 }, name: "Ada".to_string(), email: "a@b".to_string() };
    assert_eq!(table.update_coalesce(UserId { value: 1 }, change), Some(expected.clone()));
    assert_eq!(table.select_all(), vec![expected, ada(2)]);
    let change = UpdateUser { name: Some("x".to_string()), email: None };
    assert_eq!(table.update_coalesce(UserId { value: 3 }, change), None);

    assert_eq!(table.delete_by_id(UserId { value: 3 }), 0);
    assert_eq!(table.delete_by_id(UserId { value: 1 }), 1);
    assert_eq!(table.delete_by_id(UserId { value: 1 }), 0);
    assert_eq!(table.select_all(), vec![ada(2)]);
}

#[test]
fn repository_and_service_give_the_same_results() {
    let mut repo = UserRepository::new(UserTable::new());
    let payload = CreateUser { name: "Ada".to_string(), email: "ada@example.com".to_string() };
    let made = repo.create_user(payload).unwrap();
    assert_eq!(made.name, "Ada");
    assert_eq!(repo.get_user(made.id), Ok(made.clone()));
    assert_eq!(repo.get_users(), Ok(vec![made.clone()]));
    assert_eq!(repo.get_user(UserId { value: 0 }), Err(AppError::UserNotFound));
    assert_eq!(repo.delete_user(UserId { value: 0 }), Err(AppError::UserNotFound));

    let mut service = UserService::new(repo);
    assert_eq!(service.get_user(made.id), Ok(made.clone()));
    let again = CreateUser { name: "Eve".to_string(), email: "eve@example.com".to_string() };
    assert_eq!(service.create_user_as(made.id, again), Err(AppError::Database));
    let change = UpdateUser { name: Some("Grace".to_string()), email: None };
    let renamed = User { id: made.id, name: "Grace".to_string(), email: made.email.clone() };
    assert_eq!(service.update_user(made.id, change), Ok(renamed.clone()));
    assert_eq!(service.get_users(), Ok(vec![renamed]));
    assert_eq!(service.delete_user(made.id), Ok(()));
    assert_eq!(service.delete_user(made.id), Err(AppError::UserNotFound));
    assert_eq!(service.get_users(), Ok(Vec::new()));
    let third = CreateUser { name: "Bob".to_string(), email: "bob@example.com".to_string() };
    assert_eq!(service.create_user(third).unwrap().name, "Bob");
}
