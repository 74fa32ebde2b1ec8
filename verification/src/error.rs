use vstd::prelude::*;

use crate::validation::ValidationReport;

verus! {

/// Error variants that may be created while serving a request.
///
/// A value of this type is created at the point of failure — the validation
/// stage or an upstream call — carried as the failure channel through the
/// handler, and consumed exactly once by the terminal classifier.
#[derive(Debug)]
pub enum ServiceError {
    /// The create payload violated one or more field rules; carries the
    /// full field-keyed report.
    Validation(ValidationReport),
    /// An upstream call failed at the transport level; carries the
    /// transport's own error text.
    External(String),
    /// The upstream response body did not match the expected shape; carries
    /// the decoder's description of the mismatch.
    InvalidPayload(String),
}

} // verus!
