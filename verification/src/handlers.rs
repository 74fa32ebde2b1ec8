pub mod users;

use vstd::prelude::*;

use crate::error::ServiceError;
use crate::filters::{users_decision, users_path, Method, RouteDecision};
use crate::models::{NewUserRequest, User};
use crate::validation::{report_for, request_valid, valid_email, valid_name, ValidationReport};
use crate::handlers::users::{
    capped, create, create_finish, list, CreateUserOutcome, FetchUsersOutcome,
};

verus! {

/// Any failure that can reach the terminal classifier: the two
/// routing-level signals, a typed service error from a handler, a request
/// body that did not decode, or — as a safety net — a failure of no known
/// kind.
pub enum Failure {
    /// Routing: no path matched.
    NotFound,
    /// A handler failed with a typed service error.
    Service(ServiceError),
    /// The request body failed to decode as the expected shape; carries
    /// the decoder's text.
    BodyDeserialize(String),
    /// Routing: the path matched but the method did not.
    MethodNotAllowed,
    /// None of the known kinds: collapses to a bare 500.
    Unclassified,
}

/// The uniform error envelope rendered to clients on any failure path.
pub struct ErrorMessage {
    /// The HTTP status code, repeated in the body.
    pub code: u16,
    /// Human-readable description of the failure.
    pub message: String,
    /// Field-keyed violation report; present exactly for validation
    /// failures, absent otherwise.
    pub context: Option<ValidationReport>,
}

/// The classifier's decision table, first column: the status for each
/// failure kind.
pub open spec fn status_of(err: Failure) -> u16 {
    match err {
        Failure::NotFound => 404,
        Failure::Service(ServiceError::Validation(_)) => 422,
        Failure::Service(ServiceError::External(_)) => 503,
        Failure::Service(ServiceError::InvalidPayload(_)) => 502,
        Failure::BodyDeserialize(_) => 400,
        Failure::MethodNotAllowed => 405,
        Failure::Unclassified => 500,
    }
}

/// The classifier's decision table, second column: the envelope message
/// for each failure kind.
pub open spec fn message_of(err: Failure) -> Seq<char> {
    match err {
        Failure::NotFound => "NOT_FOUND"@,
        Failure::Service(ServiceError::Validation(_)) => "Validation failed"@,
        Failure::Service(ServiceError::External(detail)) => detail@,
        Failure::Service(ServiceError::InvalidPayload(desc)) => desc@,
        Failure::BodyDeserialize(text) => text@,
        Failure::MethodNotAllowed => "HTTP method not allowed"@,
        Failure::Unclassified => ""@,
    }
}

/// The classifier's decision table, third column: the envelope carries the
/// full validation report exactly when the failure is a validation
/// failure, and nothing otherwise.
pub open spec fn context_of(err: Failure) -> Option<ValidationReport> {
    match err {
        Failure::Service(ServiceError::Validation(rep)) => Some(rep),
        _ => None,
    }
}

/// Everything `recover` promises of the envelope it renders.
pub open spec fn recover_post(err: Failure, em: ErrorMessage) -> bool {
    &&& em.code == status_of(err)
    &&& em.message@ == message_of(err)
    &&& em.context == context_of(err)
}

/// Render the client-facing error envelope for any failure.
///
/// This is the terminal handler of every failure in the system: an ordered
/// decision list in which the first matching rule wins, closed by a bare
/// 500 for anything unrecognized. It never itself fails and always yields
/// a well-formed envelope.
pub fn recover(err: Failure) -> (em: ErrorMessage)
    ensures
        recover_post(err, em),
{
    match err {
        Failure::NotFound => ErrorMessage {
            code: 404,
            message: String::from_str("NOT_FOUND"),
            context: None,
        },
        Failure::Service(ServiceError::Validation(rep)) => ErrorMessage {
            code: 422,
            message: String::from_str("Validation failed"),
            context: Some(rep),
        },
        Failure::Service(ServiceError::External(detail)) => ErrorMessage {
            code: 503,
            message: detail,
            context: None,
        },
        Failure::Service(ServiceError::InvalidPayload(desc)) => ErrorMessage {
            code: 502,
            message: desc,
            context: None,
        },
        Failure::BodyDeserialize(text) => ErrorMessage {
            code: 400,
            message: text,
            context: None,
        },
        Failure::MethodNotAllowed => ErrorMessage {
            code: 405,
            message: String::from_str("HTTP method not allowed"),
            context: None,
        },
        Failure::Unclassified => ErrorMessage {
            code: 500,
            message: String::from_str(""),
            context: None,
        },
    }
}

/// A complete reply to one inbound request.
pub enum Response {
    /// 200: the JSON array of at-most-two user records.
    UsersBody(Vec<User>),
    /// 201: created, empty body.
    Created,
    /// Any failure, rendered as the uniform envelope.
    Failed(ErrorMessage),
}

/// The HTTP status a response is sent with.
pub open spec fn spec_status(resp: Response) -> u16 {
    match resp {
        Response::UsersBody(_) => 200,
        Response::Created => 201,
        Response::Failed(em) => em.code,
    }
}

impl Response {
    /// The HTTP status this response is sent with.
    pub fn status(&self) -> (s: u16)
        ensures
            s == spec_status(*self),
    {
        match self {
            Response::UsersBody(_) => 200,
            Response::Created => 201,
            Response::Failed(em) => em.code,
        }
    }
}

/// How the inbound request body decoded, where the matched route needs
/// one.
pub enum BodyOutcome {
    /// The body decoded as a `NewUserRequest`.
    Decoded(NewUserRequest),
    /// The body failed to decode (syntax or shape); carries the decoder's
    /// text.
    Undecodable(String),
}

/// What the service owes next for one inbound request, after routing and
/// validation and before any upstream call.
pub enum Step {
    /// Reply immediately; no upstream call is owed.
    Done(Response),
    /// Call `GET <base>/users` and hand the outcome to `resume_list`.
    CallFetchUsers,
    /// Forward this validated request with `POST <base>/users` and hand
    /// the outcome to `resume_create`.
    CallCreateUser(NewUserRequest),
}

/// Everything `dispatch` promises of the step it picks.
pub open spec fn dispatch_post(m: Method, p: Seq<char>, body: BodyOutcome, s: Step) -> bool {
    match users_decision(m, p) {
        RouteDecision::PathNotFound => s matches Step::Done(Response::Failed(em))
            && recover_post(Failure::NotFound, em),
        RouteDecision::ListUsers => s is CallFetchUsers,
        RouteDecision::CreateUser => match body {
            BodyOutcome::Decoded(req) => if request_valid(req) {
                s matches Step::CallCreateUser(v) && v == req
            } else {
                &&& s matches Step::Done(Response::Failed(em))
                &&& em.code == 422
                &&& em.message@ == "Validation failed"@
                &&& (em.context matches Some(rep) && report_for(rep, req))
            },
            BodyOutcome::Undecodable(text) => s matches Step::Done(Response::Failed(em))
                && recover_post(Failure::BodyDeserialize(text), em),
        },
        RouteDecision::WrongMethod => s matches Step::Done(Response::Failed(em))
            && recover_post(Failure::MethodNotAllowed, em),
    }
}

/// The first half of one request's lifecycle: route it, and for a create,
/// decode-check and validate the payload. Anything that fails here is
/// classified at once; an upstream call is owed only for a matched route
/// with a valid payload.
pub fn dispatch(method: &Method, path: &String, body: BodyOutcome) -> (s: Step)
    ensures
        dispatch_post(*method, path@, body, s),
{
    match crate::filters::users(method, path) {
        RouteDecision::PathNotFound => Step::Done(Response::Failed(recover(Failure::NotFound))),
        RouteDecision::ListUsers => Step::CallFetchUsers,
        RouteDecision::CreateUser => match body {
            BodyOutcome::Decoded(req) => match create(&req) {
                Ok(v) => Step::CallCreateUser(v),
                Err(e) => Step::Done(Response::Failed(recover(Failure::Service(e)))),
            },
            BodyOutcome::Undecodable(text) => Step::Done(
                Response::Failed(recover(Failure::BodyDeserialize(text))),
            ),
        },
        RouteDecision::WrongMethod => Step::Done(
            Response::Failed(recover(Failure::MethodNotAllowed)),
        ),
    }
}

/// Everything `resume_list` promises of the reply it shapes.
pub open spec fn resume_list_post(outcome: FetchUsersOutcome, resp: Response) -> bool {
    match outcome {
        FetchUsersOutcome::Fetched(users) => resp matches Response::UsersBody(out) && out@
            == capped(users@),
        FetchUsersOutcome::Unreachable(detail) => resp matches Response::Failed(em)
            && recover_post(Failure::Service(ServiceError::External(detail)), em),
        FetchUsersOutcome::Malformed(desc) => resp matches Response::Failed(em)
            && recover_post(Failure::Service(ServiceError::InvalidPayload(desc)), em),
    }
}

/// The second half of a list request's lifecycle, once the upstream call
/// has completed: at most the first two records on success, the classified
/// envelope on failure.
pub fn resume_list(outcome: FetchUsersOutcome) -> (resp: Response)
    ensures
        resume_list_post(outcome, resp),
{
    match list(outcome) {
        Ok(records) => Response::UsersBody(records),
        Err(e) => Response::Failed(recover(Failure::Service(e))),
    }
}

/// Everything `resume_create` promises of the reply it shapes.
pub open spec fn resume_create_post(outcome: CreateUserOutcome, resp: Response) -> bool {
    match outcome {
        CreateUserOutcome::Delivered => resp is Created,
        CreateUserOutcome::Unreachable(detail) => resp matches Response::Failed(em)
            && recover_post(Failure::Service(ServiceError::External(detail)), em),
    }
}

/// The second half of a create request's lifecycle, once the upstream call
/// has completed: a bare 201 Created on delivery, the classified envelope
/// on failure.
pub fn resume_create(outcome: CreateUserOutcome) -> (resp: Response)
    ensures
        resume_create_post(outcome, resp),
{
    match create_finish(outcome) {
        Ok(_code) => Response::Created,
        Err(e) => Response::Failed(recover(Failure::Service(e))),
    }
}

/// The envelope of a step that replies immediately with a failure.
pub open spec fn step_envelope(s: Step) -> ErrorMessage
    recommends
        s matches Step::Done(Response::Failed(_)),
{
    s->Done_0->Failed_0
}

/// A create whose payload has an empty email and an empty name is refused
/// with 422, and the envelope's context reports a violation for both
/// fields.
pub proof fn lemma_create_empty_fields(p: Seq<char>, req: NewUserRequest, s: Step)
    requires
        users_path(p),
        req.email@.len() == 0,
        req.name@.len() == 0,
        dispatch_post(Method::Post, p, BodyOutcome::Decoded(req), s),
    ensures
        s matches Step::Done(Response::Failed(_)),
        step_envelope(s).code == 422,
        step_envelope(s).message@ == "Validation failed"@,
        step_envelope(s).context is Some,
        step_envelope(s).context->0.email@.len() == 1,
        step_envelope(s).context->0.name@.len() == 1,
{
    crate::validation::lemma_empty_email_invalid(req.email@);
}

/// A create whose payload has an invalid email but a valid name is
/// refused with 422, and the envelope's context reports a violation for
/// the email field only, with the email rule's message.
pub proof fn lemma_create_bad_email_only(p: Seq<char>, req: NewUserRequest, s: Step)
    requires
        users_path(p),
        !valid_email(req.email@),
        valid_name(req.name@),
        dispatch_post(Method::Post, p, BodyOutcome::Decoded(req), s),
    ensures
        s matches Step::Done(Response::Failed(_)),
        step_envelope(s).code == 422,
        step_envelope(s).context is Some,
        step_envelope(s).context->0.email@.len() == 1,
        step_envelope(s).context->0.email@[0].message@ == "Please supply a valid email address"@,
        step_envelope(s).context->0.name@.len() == 0,
{
}

/// A create whose payload has a valid email but a too-short name is
/// refused with 422, and the envelope's context reports a violation for
/// the name field only, with the name rule's message.
pub proof fn lemma_create_short_name_only(p: Seq<char>, req: NewUserRequest, s: Step)
    requires
        users_path(p),
        valid_email(req.email@),
        !valid_name(req.name@),
        dispatch_post(Method::Post, p, BodyOutcome::Decoded(req), s),
    ensures
        s matches Step::Done(Response::Failed(_)),
        step_envelope(s).code == 422,
        step_envelope(s).context is Some,
        step_envelope(s).context->0.name@.len() == 1,
        step_envelope(s).context->0.name@[0].message@ == "Name must be at least three characters long"@,
        step_envelope(s).context->0.email@.len() == 0,
{
}

/// Any request to an unregistered path is answered immediately with a
/// 404 envelope whose message is `NOT_FOUND` and whose context is absent,
/// whatever the method and body.
pub proof fn lemma_unknown_path_not_found(m: Method, p: Seq<char>, body: BodyOutcome, s: Step)
    requires
        !users_path(p),
        dispatch_post(m, p, body, s),
    ensures
        s matches Step::Done(Response::Failed(_)),
        step_envelope(s).code == 404,
        step_envelope(s).message@ == "NOT_FOUND"@,
        step_envelope(s).context is None,
{
}

/// A `PUT` or `DELETE` to the users path is answered immediately with a
/// 405 envelope, whatever the body.
pub proof fn lemma_wrong_method_not_allowed(m: Method, p: Seq<char>, body: BodyOutcome, s: Step)
    requires
        users_path(p),
        m is Put || m is Delete,
        dispatch_post(m, p, body, s),
    ensures
        s matches Step::Done(Response::Failed(_)),
        step_envelope(s).code == 405,
        step_envelope(s).message@ == "HTTP method not allowed"@,
        step_envelope(s).context is None,
{
}

/// When the upstream listing call fails at the transport level, the reply
/// is a 503 envelope carrying the transport's error text and no context.
pub proof fn lemma_list_transport_failure(detail: String, resp: Response)
    requires
        resume_list_post(FetchUsersOutcome::Unreachable(detail), resp),
    ensures
        resp matches Response::Failed(_),
        resp->Failed_0.code == 503,
        resp->Failed_0.message@ == detail@,
        resp->Failed_0.context is None,
{
}

/// When the upstream listing response does not decode as a sequence of
/// users, the reply is a 502 envelope carrying the decoder's description —
/// non-empty whenever the description is — and no context.
pub proof fn lemma_list_malformed_payload(desc: String, resp: Response)
    requires
        resume_list_post(FetchUsersOutcome::Malformed(desc), resp),
    ensures
        resp matches Response::Failed(_),
        resp->Failed_0.code == 502,
        resp->Failed_0.message@ == desc@,
        desc@.len() > 0 ==> resp->Failed_0.message@.len() > 0,
        resp->Failed_0.context is None,
{
}

} // verus!
