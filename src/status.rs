use vstd::prelude::*;

use crate::error::StepError;

verus! {

/// The status codes that the Validation Step reports as a client error.
pub open spec fn is_client_error(code: u16) -> bool {
    400 <= code && code < 500
}

/// The status codes that the Validation Step reports as a server error.
pub open spec fn is_server_error(code: u16) -> bool {
    500 <= code && code < 600
}

/// What the Validation Step makes of a status code: every code outside the
/// two error ranges lets the pipeline go on.
pub open spec fn status_outcome(code: u16) -> Result<(), StepError> {
    if is_client_error(code) {
        Err(StepError::ClientError { status_code: code })
    } else if is_server_error(code) {
        Err(StepError::ServerError { status_code: code })
    } else {
        Ok(())
    }
}

/// The Validation Step: halts on a client or server error, continues otherwise.
pub fn validate_status(code: u16) -> (r: Result<(), StepError>)
    ensures
        r == status_outcome(code),
        r is Err <==> (400 <= code && code <= 599),
        200 <= code && code <= 299 ==> r is Ok,
{
    if 400 <= code && code < 500 {
        Err(StepError::ClientError { status_code: code })
    } else if 500 <= code && code < 600 {
        Err(StepError::ServerError { status_code: code })
    } else {
        Ok(())
    }
}

} // verus!
