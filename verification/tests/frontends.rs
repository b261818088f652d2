use coqrs::commands::CreateUser;
use coqrs::grpc::{CreateUserRequest, GetUserRequest, GrpcUserServiceImpl, RpcStatus};
use coqrs::http::{create_user, get_user_by_id, HttpResponse};
use coqrs::ids::format_user_id;
use coqrs::memory::MemoryRepository;
use coqrs::routes::Api;
use coqrs::services::UserService;
use coqrs::steering::{select_front_end, FrontEnd};

fn command(username: &str, email: &str) -> CreateUser {
    CreateUser {
        username: username.to_string(),
        email: email.to_string(),
    }
}

#[test]
fn steering_defaults_to_http_without_marker() {
    assert_eq!(select_front_end(None), FrontEnd::Http);
}

#[test]
fn steering_sends_json_to_http() {
    assert_eq!(
        select_front_end(Some(b"application/json".as_slice())),
        FrontEnd::Http
    );
}

#[test]
fn steering_sends_grpc_to_rpc() {
    assert_eq!(
        select_front_end(Some(b"application/grpc".as_slice())),
        FrontEnd::Rpc
    );
}

#[test]
fn steering_goes_by_the_marker_prefix() {
    assert_eq!(
        select_front_end(Some(b"application/grpc-web+proto".as_slice())),
        FrontEnd::Rpc
    );
    assert_eq!(
        select_front_end(Some(b"application/grp".as_slice())),
        FrontEnd::Http
    );
}

#[test]
fn steering_indexes_http_first() {
    assert_eq!(FrontEnd::Http.index(), 0);
    assert_eq!(FrontEnd::Rpc.index(), 1);
}

#[test]
fn api_route_paths() {
    assert_eq!(<&str>::from(Api::CreateUser), "/users");
    assert_eq!(<&str>::from(Api::GetUser), "/users/{id}");
}

#[test]
fn http_create_then_get_end_to_end() {
    let mut service = UserService::new(MemoryRepository::new());
    let created = create_user(&mut service, command("ada", "ada@example.com"));
    let user = match created {
        HttpResponse::Created(u) => u,
        _ => panic!("the create request must be acknowledged"),
    };
    let id_text = format_user_id(user.id);
    let got = get_user_by_id(&mut service, &id_text);
    match got {
        HttpResponse::UserFound(u) => {
            assert_eq!(u.id, user.id);
            assert_eq!(u.username, "ada");
            assert_eq!(u.email, "ada@example.com");
        }
        _ => panic!("the created user must be found under the returned id"),
    }
}

#[test]
fn http_statuses_distinguish_the_outcomes() {
    let mut service = UserService::new(MemoryRepository::new());
    let created = create_user(&mut service, command("ada", "ada@example.com"));
    assert_eq!(created.status(), 201);
    let user = match created {
        HttpResponse::Created(u) => u,
        _ => unreachable!(),
    };
    let found = get_user_by_id(&mut service, &format_user_id(user.id));
    assert_eq!(found.status(), 200);
}

#[test]
fn http_get_unknown_uuid_is_not_found() {
    let mut service = UserService::new(MemoryRepository::new());
    let got = get_user_by_id(&mut service, "00000000-0000-7000-8000-000000000001");
    assert!(matches!(got, HttpResponse::UserNotFound));
    assert_eq!(got.status(), 404);
    assert_ne!(got.status(), 200);
}

#[test]
fn http_get_malformed_id_is_a_client_error() {
    let mut service = UserService::new(MemoryRepository::new());
    let got = get_user_by_id(&mut service, "not-a-uuid");
    assert!(matches!(got, HttpResponse::BadRequest));
    assert_eq!(got.status(), 400);
    assert_eq!(service.repo.recorded_events().len(), 0);
}

#[test]
fn http_create_failure_is_reported() {
    let mut service = UserService::new(MemoryRepository::with_policy(false, true, true));
    let r = create_user(&mut service, command("ada", "a@b.c"));
    assert!(matches!(r, HttpResponse::CreateFailed));
    assert_eq!(r.status(), 500);
}

#[test]
fn http_read_failure_is_distinct_from_absence() {
    let mut service = UserService::new(MemoryRepository::with_policy(true, true, false));
    let r = get_user_by_id(&mut service, "00000000-0000-7000-8000-000000000001");
    assert!(matches!(r, HttpResponse::FetchFailed));
    assert_eq!(r.status(), 500);
}

#[test]
fn grpc_create_acknowledges_with_empty_response() {
    let service = UserService::new(MemoryRepository::new());
    let mut front = GrpcUserServiceImpl::new(service);
    let r = front.create_user(CreateUserRequest {
        username: "ada".to_string(),
        email: "ada@example.com".to_string(),
    });
    assert!(r.is_ok());
    assert_eq!(front.repo.repo.recorded_events().len(), 1);
}

#[test]
fn grpc_get_round_trips_the_id_text() {
    let mut service = UserService::new(MemoryRepository::new());
    let user = service
        .handle_create_user(command("ada", "ada@example.com"))
        .unwrap();
    let mut front = GrpcUserServiceImpl::new(service);
    let resp = front
        .get_user(GetUserRequest {
            id: format_user_id(user.id),
        })
        .expect("the created user must be found");
    assert_eq!(resp.username, "ada");
    assert_eq!(resp.email, "ada@example.com");
    assert_eq!(resp.id.len(), 36);
    let reparsed = uuid::Uuid::parse_str(&resp.id)
        .expect("the answered id must be canonical UUID text")
        .as_u128();
    assert_eq!(reparsed, user.id);
}

#[test]
fn grpc_get_malformed_id_is_invalid_argument() {
    let service = UserService::new(MemoryRepository::new());
    let mut front = GrpcUserServiceImpl::new(service);
    let r = front.get_user(GetUserRequest {
        id: "not-a-uuid".to_string(),
    });
    assert!(matches!(r, Err(RpcStatus::InvalidArgument)));
    assert_eq!(front.repo.repo.recorded_events().len(), 0);
}

#[test]
fn grpc_get_missing_user_is_not_found() {
    let service = UserService::new(MemoryRepository::new());
    let mut front = GrpcUserServiceImpl::new(service);
    let r = front.get_user(GetUserRequest {
        id: "00000000-0000-7000-8000-000000000001".to_string(),
    });
    assert!(matches!(r, Err(RpcStatus::NotFound)));
}

#[test]
fn grpc_get_storage_failure_is_internal() {
    let service = UserService::new(MemoryRepository::with_policy(true, true, false));
    let mut front = GrpcUserServiceImpl::new(service);
    let r = front.get_user(GetUserRequest {
        id: "00000000-0000-7000-8000-000000000001".to_string(),
    });
    assert!(matches!(r, Err(RpcStatus::Internal)));
}

#[test]
fn grpc_create_failure_is_already_exists() {
    let service = UserService::new(MemoryRepository::with_policy(false, true, true));
    let mut front = GrpcUserServiceImpl::new(service);
    let r = front.create_user(CreateUserRequest {
        username: "ada".to_string(),
        email: "a@b.c".to_string(),
    });
    assert!(matches!(r, Err(RpcStatus::AlreadyExists)));
}

#[test]
fn uppercase_uuid_text_is_accepted_on_get() {
    let mut service = UserService::new(MemoryRepository::new());
    let user = service
        .handle_create_user(command("ada", "ada@example.com"))
        .unwrap();
    let upper = format_user_id(user.id).to_uppercase();
    let got = get_user_by_id(&mut service, &upper);
    assert!(matches!(got, HttpResponse::UserFound(_)));
}
