//! What the request trace records of a failed request.

use vstd::prelude::*;

verus! {

/// The status of an answer that a gateway could not get from the server behind it.
pub const BAD_GATEWAY: u16 = 502;

/// What goes into the span of a failed request.
#[derive(Clone, Copy, Debug)]
pub struct FailureRecord {
    /// The status code, where the failure is an answer with an error status.
    pub status_code: Option<u16>,
    /// Whether the failure is recorded as an error and logged.
    pub is_error: bool,
}

/// Decides what is recorded of a failure. `status` is the status of the answer, where
/// there was one. An answer that reports a bad gateway is not an error of this server.
pub fn failure_record(status: Option<u16>) -> (r: FailureRecord)
    ensures
        r.status_code == status,
        r.is_error == (status != Some(BAD_GATEWAY)),
        r.is_error <==> !(status matches Some(code) && code == 502),
{
    let is_error: bool = match status {
        Some(code) => code != BAD_GATEWAY,
        None => true,
    };
    FailureRecord { status_code: status, is_error }
}

} // verus!
