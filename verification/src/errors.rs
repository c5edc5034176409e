//! The failure taxonomy shared by every catalog operation.

use vstd::prelude::*;

verus! {

/// A typed failure. Every operation returns one of these instead of
/// panicking; the message carries context for the end user and is not part
/// of any contract.
#[derive(Debug)]
pub enum Error {
    /// An id or address is absent, or a query or bulk deletion yielded nothing.
    NotFound { msg: String },
    /// The caller lacks the required role or ownership.
    Unauthorized { msg: String },
    /// A required field is empty, the caller is banned from writing, or a
    /// filter predicate carries no criterion at all.
    InvalidArgument { msg: String },
    /// The moderator set is at its configured bound.
    CapacityExceeded { msg: String },
    /// The moderator address is already present.
    Duplicate { msg: String },
}

impl Error {
    /// The message carried by the failure, whatever its variant.
    pub open spec fn msg_spec(&self) -> Seq<char> {
        match self {
            Error::NotFound { msg } => msg@,
            Error::Unauthorized { msg } => msg@,
            Error::InvalidArgument { msg } => msg@,
            Error::CapacityExceeded { msg } => msg@,
            Error::Duplicate { msg } => msg@,
        }
    }

    /// Human-readable context for the failure.
    pub fn message(&self) -> (r: &str)
        ensures
            r@ == self.msg_spec(),
    {
        match self {
            Error::NotFound { msg } => msg.as_str(),
            Error::Unauthorized { msg } => msg.as_str(),
            Error::InvalidArgument { msg } => msg.as_str(),
            Error::CapacityExceeded { msg } => msg.as_str(),
            Error::Duplicate { msg } => msg.as_str(),
        }
    }
}

} // verus!
