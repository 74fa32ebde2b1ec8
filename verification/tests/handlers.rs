use users_proxy::error::ServiceError;
use users_proxy::filters::{users, users_create, users_list, Method, RouteDecision};
use users_proxy::handlers::users::{CreateUserOutcome, FetchUsersOutcome};
use users_proxy::handlers::{
    dispatch, recover, resume_create, resume_list, BodyOutcome, Failure, Response, Step,
};
use users_proxy::models::{NewUserRequest, User};

fn user(id: usize, email: &str, name: &str) -> User {
    User {
        id,
        email: email.to_string(),
        name: name.to_string(),
    }
}

#[test]
fn recover_renders_not_found() {
    let em = recover(Failure::NotFound);
    assert_eq!(em.code, 404);
    assert_eq!(em.message, "NOT_FOUND");
    assert!(em.context.is_none());
}

#[test]
fn recover_renders_validation_failure_with_context() {
    let report = users_proxy::validation::validate(&NewUserRequest {
        email: "".to_string(),
        name: "".to_string(),
    })
    .unwrap_err();
    let em = recover(Failure::Service(ServiceError::Validation(report)));
    assert_eq!(em.code, 422);
    assert_eq!(em.message, "Validation failed");
    let ctx = em.context.expect("validation failures carry their report");
    assert_eq!(ctx.email.len(), 1);
    assert_eq!(ctx.name.len(), 1);
}

#[test]
fn recover_renders_transport_failure() {
    let em = recover(Failure::Service(ServiceError::External(
        "connection refused".to_string(),
    )));
    assert_eq!(em.code, 503);
    assert_eq!(em.message, "connection refused");
    assert!(em.context.is_none());
}

#[test]
fn recover_renders_invalid_upstream_payload() {
    let em = recover(Failure::Service(ServiceError::InvalidPayload(
        "invalid type: map, expected a sequence".to_string(),
    )));
    assert_eq!(em.code, 502);
    assert_eq!(em.message, "invalid type: map, expected a sequence");
    assert!(em.context.is_none());
}

#[test]
fn recover_renders_undecodable_body() {
    let em = recover(Failure::BodyDeserialize(
        "expected value at line 1 column 1".to_string(),
    ));
    assert_eq!(em.code, 400);
    assert_eq!(em.message, "expected value at line 1 column 1");
    assert!(em.context.is_none());
}

#[test]
fn recover_renders_method_not_allowed() {
    let em = recover(Failure::MethodNotAllowed);
    assert_eq!(em.code, 405);
    assert_eq!(em.message, "HTTP method not allowed");
    assert!(em.context.is_none());
}

#[test]
fn recover_falls_back_to_bare_500() {
    let em = recover(Failure::Unclassified);
    assert_eq!(em.code, 500);
    assert_eq!(em.message, "");
    assert!(em.context.is_none());
}

#[test]
fn routing_matches_methods_and_path() {
    let path = "/api/v1/users".to_string();
    let other = "/api/v1/accounts".to_string();
    assert!(users_list(&Method::Get, &path));
    assert!(!users_list(&Method::Post, &path));
    assert!(users_create(&Method::Post, &path));
    assert!(!users_create(&Method::Post, &other));
    assert!(matches!(users(&Method::Get, &path), RouteDecision::ListUsers));
    assert!(matches!(users(&Method::Post, &path), RouteDecision::CreateUser));
    assert!(matches!(users(&Method::Put, &path), RouteDecision::WrongMethod));
    assert!(matches!(users(&Method::Get, &other), RouteDecision::PathNotFound));
}

#[test]
fn unregistered_path_yields_404() {
    let step = dispatch(
        &Method::Get,
        &"/api/v2/users".to_string(),
        BodyOutcome::Undecodable("no body".to_string()),
    );
    match step {
        Step::Done(Response::Failed(em)) => {
            assert_eq!(em.code, 404);
            assert_eq!(em.message, "NOT_FOUND");
            assert!(em.context.is_none());
        }
        _ => panic!("expected an immediate 404 reply"),
    }
}

#[test]
fn put_and_delete_yield_405() {
    for method in [Method::Put, Method::Delete] {
        let step = dispatch(
            &method,
            &"/api/v1/users".to_string(),
            BodyOutcome::Undecodable("no body".to_string()),
        );
        match step {
            Step::Done(resp) => assert_eq!(resp.status(), 405),
            _ => panic!("expected an immediate 405 reply"),
        }
    }
}

#[test]
fn undecodable_body_yields_400() {
    let step = dispatch(
        &Method::Post,
        &"/api/v1/users".to_string(),
        BodyOutcome::Undecodable("missing field `email` at line 1 column 2".to_string()),
    );
    match step {
        Step::Done(Response::Failed(em)) => {
            assert_eq!(em.code, 400);
            assert_eq!(em.message, "missing field `email` at line 1 column 2");
            assert!(em.context.is_none());
        }
        _ => panic!("expected an immediate 400 reply"),
    }
}

#[test]
fn get_users_route_owes_an_upstream_fetch() {
    let step = dispatch(
        &Method::Get,
        &"/api/v1/users".to_string(),
        BodyOutcome::Undecodable("no body".to_string()),
    );
    assert!(matches!(step, Step::CallFetchUsers));
}

#[test]
fn list_caps_replies_at_two_records() {
    let many = vec![
        user(1, "a@x.com", "Ada"),
        user(2, "b@x.com", "Bob"),
        user(3, "c@x.com", "Cid"),
        user(4, "d@x.com", "Dee"),
    ];
    let resp = resume_list(FetchUsersOutcome::Fetched(many));
    assert_eq!(resp.status(), 200);
    match resp {
        Response::UsersBody(records) => {
            assert_eq!(records.len(), 2);
            assert_eq!(records[0].id, 1);
            assert_eq!(records[0].name, "Ada");
            assert_eq!(records[1].id, 2);
            assert_eq!(records[1].name, "Bob");
        }
        _ => panic!("expected a users body"),
    }
}

#[test]
fn list_returns_short_upstream_sequences_unchanged() {
    let resp = resume_list(FetchUsersOutcome::Fetched(vec![]));
    match resp {
        Response::UsersBody(records) => assert_eq!(records.len(), 0),
        _ => panic!("expected a users body"),
    }
    let resp = resume_list(FetchUsersOutcome::Fetched(vec![user(7, "g@x.com", "Gil")]));
    match resp {
        Response::UsersBody(records) => {
            assert_eq!(records.len(), 1);
            assert_eq!(records[0].id, 7);
            assert_eq!(records[0].email, "g@x.com");
            assert_eq!(records[0].name, "Gil");
        }
        _ => panic!("expected a users body"),
    }
}

#[test]
fn list_transport_failure_yields_503() {
    let resp = resume_list(FetchUsersOutcome::Unreachable(
        "error sending request".to_string(),
    ));
    assert_eq!(resp.status(), 503);
    match resp {
        Response::Failed(em) => {
            assert_eq!(em.message, "error sending request");
            assert!(em.context.is_none());
        }
        _ => panic!("expected a failure envelope"),
    }
}

#[test]
fn list_malformed_payload_yields_502_with_message() {
    let resp = resume_list(FetchUsersOutcome::Malformed(
        "invalid type: map, expected a sequence".to_string(),
    ));
    assert_eq!(resp.status(), 502);
    match resp {
        Response::Failed(em) => {
            assert!(!em.message.is_empty());
            assert_eq!(em.message, "invalid type: map, expected a sequence");
            assert!(em.context.is_none());
        }
        _ => panic!("expected a failure envelope"),
    }
}

#[test]
fn create_transport_failure_yields_503() {
    let resp = resume_create(CreateUserOutcome::Unreachable(
        "error sending request".to_string(),
    ));
    assert_eq!(resp.status(), 503);
    match resp {
        Response::Failed(em) => {
            assert_eq!(em.message, "error sending request");
            assert!(em.context.is_none());
        }
        _ => panic!("expected a failure envelope"),
    }
}

#[test]
fn create_rejection_carries_field_context() {
    let step = dispatch(
        &Method::Post,
        &"/api/v1/users".to_string(),
        BodyOutcome::Decoded(NewUserRequest {
            email: "z@".to_string(),
            name: "MKBHD".to_string(),
        }),
    );
    match step {
        Step::Done(Response::Failed(em)) => {
            assert_eq!(em.code, 422);
            assert_eq!(em.message, "Validation failed");
            let ctx = em.context.expect("validation failures carry their report");
            assert_eq!(ctx.email.len(), 1);
            assert_eq!(ctx.name.len(), 0);
        }
        _ => panic!("expected an immediate 422 reply"),
    }
}
