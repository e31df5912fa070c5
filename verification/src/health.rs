//! The liveness endpoint.

use vstd::prelude::*;
use crate::status::Status;

verus! {

/// The fixed body of the liveness reply.
pub const GREETING: &'static str = "Hello, World!";

/// The liveness reply: always 200 with [`GREETING`] as plain text. It takes
/// nothing, so it cannot depend on the datastore or on the request.
pub fn root() -> (reply: (Status, &'static str))
    ensures
        reply.0 == Status::Okay,
        reply.1@ == GREETING@,
{
    (Status::Okay, GREETING)
}

} // verus!
