use users_proxy::filters::Method;
use users_proxy::handlers::users::CreateUserOutcome;
use users_proxy::handlers::{dispatch, resume_create, BodyOutcome, Step};
use users_proxy::models::NewUserRequest;

#[test]
fn invalid_create_request_empty_fields() {
    let step = dispatch(
        &Method::Post,
        &"/api/v1/users".to_string(),
        BodyOutcome::Decoded(NewUserRequest {
            email: "".to_string(),
            name: "".to_string(),
        }),
    );
    match step {
        Step::Done(resp) => assert_eq!(resp.status(), 422),
        _ => panic!("expected an immediate reply"),
    }
}

#[test]
fn invalid_create_request_bad_email() {
    let step = dispatch(
        &Method::Post,
        &"/api/v1/users".to_string(),
        BodyOutcome::Decoded(NewUserRequest {
            email: "z@".to_string(),
            name: "MKBHD".to_string(),
        }),
    );
    match step {
        Step::Done(resp) => assert_eq!(resp.status(), 422),
        _ => panic!("expected an immediate reply"),
    }
}

#[test]
fn invalid_create_request_name_too_short() {
    let step = dispatch(
        &Method::Post,
        &"/api/v1/users".to_string(),
        BodyOutcome::Decoded(NewUserRequest {
            email: "test@example.com".to_string(),
            name: "MK".to_string(),
        }),
    );
    match step {
        Step::Done(resp) => assert_eq!(resp.status(), 422),
        _ => panic!("expected an immediate reply"),
    }
}

#[test]
fn invalid_create_request_empty_email() {
    let step = dispatch(
        &Method::Post,
        &"/api/v1/users".to_string(),
        BodyOutcome::Decoded(NewUserRequest {
            email: "".to_string(),
            name: "MKBHD".to_string(),
        }),
    );
    match step {
        Step::Done(resp) => assert_eq!(resp.status(), 422),
        _ => panic!("expected an immediate reply"),
    }
}

#[test]
fn valid_create_request() {
    let step = dispatch(
        &Method::Post,
        &"/api/v1/users".to_string(),
        BodyOutcome::Decoded(NewUserRequest {
            email: "test@example.com".to_string(),
            name: "MKBHD".to_string(),
        }),
    );
    let forwarded = match step {
        Step::CallCreateUser(req) => req,
        _ => panic!("expected the request to be forwarded upstream"),
    };
    assert_eq!(forwarded.email, "test@example.com");
    assert_eq!(forwarded.name, "MKBHD");
    let resp = resume_create(CreateUserOutcome::Delivered);
    assert_eq!(resp.status(), 201);
}
