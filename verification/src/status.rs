//! The HTTP statuses that the service replies with.

use vstd::prelude::*;

verus! {

/// A reply's status. The service uses no other.
#[derive(Clone, Copy, Debug, PartialEq, Eq, Structural)]
pub enum Status {
    /// 200: a read succeeded.
    Okay,
    /// 201: a row was inserted.
    Created,
    /// 400: the request body could not be read as the expected JSON.
    BadRequest,
    /// 500: the datastore failed, whatever the cause.
    InternalServerError,
}

impl Status {
    /// The status as the number that goes on the wire.
    pub open spec fn spec_code(self) -> u16 {
        match self {
            Status::Okay => 200,
            Status::Created => 201,
            Status::BadRequest => 400,
            Status::InternalServerError => 500,
        }
    }

    /// The status as the number that goes on the wire.
    #[verifier::when_used_as_spec(spec_code)]
    pub fn code(self) -> (c: u16)
        ensures
            c == self.spec_code(),
    {
        match self {
            Status::Okay => 200,
            Status::Created => 201,
            Status::BadRequest => 400,
            Status::InternalServerError => 500,
        }
    }
}

} // verus!
