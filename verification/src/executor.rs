//! Normalization of a transport outcome: the success range, and the shared
//! conclusion for operations whose success is acknowledgment only.

use crate::errors::api_body_spec;
use crate::errors::api_error;
use crate::errors::CommandError;
use vstd::prelude::*;

verus! {

/// The HTTP success range: any status in `200..300` counts as success.
pub open spec fn is_success(status: u16) -> bool {
    200 <= status < 300
}

/// Runtime test for [`is_success`].
pub fn status_is_success(status: u16) -> (b: bool)
    ensures
        b == is_success(status),
{
    200 <= status && status < 300
}

/// Concludes an operation whose success carries no body: success exactly on
/// a status in the success range, and otherwise the classified `Api` error
/// built from the status and the response text.
pub fn conclude_ack(status: u16, body_text: Option<String>) -> (r: Result<(), CommandError>)
    ensures
        r is Ok <==> is_success(status),
        !is_success(status) ==> (r matches Err(e) && (e matches CommandError::Api {
            status: s,
            body,
        } && s == status && body@ == api_body_spec(body_text))),
{
    if status_is_success(status) {
        Ok(())
    } else {
        Err(api_error(status, body_text))
    }
}

} // verus!
