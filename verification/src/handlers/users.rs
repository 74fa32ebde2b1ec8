use vstd::prelude::*;

use crate::error::ServiceError;
use crate::models::{NewUserRequest, User};
use crate::validation::{report_for, request_valid, validate};

verus! {

/// What one upstream `GET <base>/users` call came to, as observed at the
/// transport boundary: the decoded records, a transport-level failure, or
/// a response body that did not decode as a sequence of users.
pub enum FetchUsersOutcome {
    /// The call completed and the body decoded; carries the records in
    /// upstream order.
    Fetched(Vec<User>),
    /// The call failed at the transport level; carries the error text.
    Unreachable(String),
    /// The body did not match the expected shape; carries the decoder's
    /// description.
    Malformed(String),
}

/// What one upstream `POST <base>/users` call came to. The upstream's
/// response body is never inspected: completing without a transport error
/// is success.
pub enum CreateUserOutcome {
    /// The call completed without a transport error.
    Delivered,
    /// The call failed at the transport level; carries the error text.
    Unreachable(String),
}

/// The sequence a successful listing returns: the first two fetched
/// records in upstream order — all of them when fewer than two came back.
/// A truncation, never a sort.
pub open spec fn capped(users: Seq<User>) -> Seq<User> {
    if users.len() <= 2 {
        users
    } else {
        users.subrange(0, 2)
    }
}

/// Everything `list` promises of its result.
pub open spec fn list_post(outcome: FetchUsersOutcome, r: Result<Vec<User>, ServiceError>) -> bool {
    match outcome {
        FetchUsersOutcome::Fetched(users) => r matches Ok(out) && out@ == capped(users@),
        FetchUsersOutcome::Unreachable(detail) => r matches Err(e) && e == ServiceError::External(
            detail,
        ),
        FetchUsersOutcome::Malformed(desc) => r matches Err(e) && e == ServiceError::InvalidPayload(
            desc,
        ),
    }
}

/// Shape the list reply from what the upstream call came to: keep at most
/// the first two records, or translate the failure into its typed error.
pub fn list(outcome: FetchUsersOutcome) -> (r: Result<Vec<User>, ServiceError>)
    ensures
        list_post(outcome, r),
{
    match outcome {
        FetchUsersOutcome::Fetched(users) => {
            let mut out = users;
            let ghost orig = out@;
            out.truncate(2);
            proof {
                assert(out@ =~= capped(orig));
            }
            Ok(out)
        },
        FetchUsersOutcome::Unreachable(detail) => Err(ServiceError::External(detail)),
        FetchUsersOutcome::Malformed(desc) => Err(ServiceError::InvalidPayload(desc)),
    }
}

/// Everything the validation stage of `create` promises.
pub open spec fn create_post(req: NewUserRequest, r: Result<NewUserRequest, ServiceError>) -> bool {
    &&& (r is Ok <==> request_valid(req))
    &&& (r matches Ok(v) ==> v == req)
    &&& (r matches Err(e) ==> e matches ServiceError::Validation(rep) && report_for(rep, req))
}

/// Validate the payload for the create operation.
///
/// On success the caller forwards the returned — unchanged — request
/// upstream; on failure no upstream call may be made: validation strictly
/// precedes forwarding.
pub fn create(req: &NewUserRequest) -> (r: Result<NewUserRequest, ServiceError>)
    ensures
        create_post(*req, r),
{
    match validate(req) {
        Ok(v) => Ok(v),
        Err(rep) => Err(ServiceError::Validation(rep)),
    }
}

/// Everything the completion stage of `create` promises.
pub open spec fn create_finish_post(outcome: CreateUserOutcome, r: Result<u16, ServiceError>) -> bool {
    match outcome {
        CreateUserOutcome::Delivered => r matches Ok(code) && code == 201,
        CreateUserOutcome::Unreachable(detail) => r matches Err(e) && e == ServiceError::External(
            detail,
        ),
    }
}

/// Shape the create reply from what the upstream call came to: a bare
/// 201 Created on delivery, otherwise the typed transport failure.
pub fn create_finish(outcome: CreateUserOutcome) -> (r: Result<u16, ServiceError>)
    ensures
        create_finish_post(outcome, r),
{
    match outcome {
        CreateUserOutcome::Delivered => Ok(201),
        CreateUserOutcome::Unreachable(detail) => Err(ServiceError::External(detail)),
    }
}

/// The listing cap: a successful list reply never holds more than two
/// records, and when the upstream returned no more than two, it is the
/// upstream sequence itself, unchanged and in order.
pub proof fn lemma_list_cap(users: Vec<User>, r: Result<Vec<User>, ServiceError>)
    requires
        list_post(FetchUsersOutcome::Fetched(users), r),
    ensures
        r is Ok,
        r->Ok_0@.len() <= 2,
        users@.len() <= 2 ==> r->Ok_0@ == users@,
        r->Ok_0@ == capped(users@),
{
}

} // verus!
