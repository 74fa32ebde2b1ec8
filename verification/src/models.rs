use vstd::prelude::*;

verus! {

/// A user record, as retrieved from the upstream resource.
///
/// Records of this shape are only ever produced by decoding an upstream
/// response; the service never mutates them and hands them back to clients
/// verbatim.
#[derive(Debug)]
pub struct User {
    /// Upstream-assigned identifier.
    pub id: usize,
    /// Email address on record.
    pub email: String,
    /// Display name on record.
    pub name: String,
}

/// The payload required to create a new user record.
///
/// It is decoded from an inbound request body, validated, and on success
/// forwarded to the upstream resource unchanged.
#[derive(Debug)]
pub struct NewUserRequest {
    /// Email address of the user who is registering.
    pub email: String,
    /// Name of the user who is registering.
    pub name: String,
}

impl NewUserRequest {
    /// An identical copy of the request.
    ///
    /// Validation is pass-through, not normalizing: the pipeline forwards
    /// the very request it was given, so an exact copy is all it needs.
    pub fn duplicate(&self) -> (r: NewUserRequest)
        ensures
            r == *self,
    {
        NewUserRequest { email: self.email.clone(), name: self.name.clone() }
    }
}

} // verus!
