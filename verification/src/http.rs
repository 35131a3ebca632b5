//! The HTTP status of each answer of the service.

use crate::service::{Pokemon, ServiceError};
use vstd::prelude::*;

verus! {

/// The HTTP status that answers `error`: 404 (Not Found) when no Pokemon has
/// the requested name, 500 (Internal Server Error) otherwise.
pub fn error_status(error: &ServiceError) -> (status: u16)
    ensures
        status == (match error {
            ServiceError::NotFound { .. } => 404u16,
            ServiceError::Unknown { .. } => 500u16,
        }),
{
    match error {
        ServiceError::NotFound { .. } => 404,
        ServiceError::Unknown { .. } => 500,
    }
}

/// The HTTP status of the answer `answer`: 200 (OK) for a Pokemon, else the
/// status of its error.
pub fn answer_status(answer: &Result<Pokemon, ServiceError>) -> (status: u16)
    ensures
        status == (match answer {
            Ok(_) => 200u16,
            Err(ServiceError::NotFound { .. }) => 404u16,
            Err(ServiceError::Unknown { .. }) => 500u16,
        }),
{
    match answer {
        Ok(_) => 200,
        Err(e) => error_status(e),
    }
}

} // verus!
