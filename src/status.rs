use vstd::prelude::*;

verus! {

/// The outcome that a request reports to its caller.
#[derive(Clone, Copy, Debug, PartialEq, Eq, Structural)]
pub enum Status {
    /// The operation succeeded.
    Success,
    /// The requested key holds no value.
    NotFound,
    /// The store could not be reached or refused the command.
    InternalError,
}

impl Status {
    /// The HTTP status code of this outcome.
    pub open spec fn spec_code(self) -> u16 {
        match self {
            Status::Success => 200,
            Status::NotFound => 404,
            Status::InternalError => 500,
        }
    }

    /// The HTTP status code of this outcome.
    pub fn code(self) -> (r: u16)
        ensures
            r == self.spec_code(),
    {
        match self {
            Status::Success => 200,
            Status::NotFound => 404,
            Status::InternalError => 500,
        }
    }

    /// Whether this outcome reports success.
    pub fn is_success(self) -> (r: bool)
        ensures
            r == (self == Status::Success),
    {
        match self {
            Status::Success => true,
            _ => false,
        }
    }
}

} // verus!
