//! The reasons an operation on a circle is refused.
use vstd::prelude::*;

verus! {

/// Why an operation was refused. A refused operation changes nothing.
#[derive(Clone, Copy, Debug, PartialEq, Eq, Structural)]
pub enum Error {
    /// No circle is recorded under the identifier.
    CircleNotFound,
    /// The caller is not the circle's admin, or the recipient was already paid.
    Unauthorized,
    /// The caller is already a member.
    AlreadyJoined,
    /// The circle is full.
    MaxMembersReached,
    /// The caller has already voted to dissolve the circle.
    AlreadyVoted,
    /// The identity named is not a member of the circle.
    NotMember,
    /// The circle has been dissolved.
    AlreadyDissolved,
    /// The circle has not been dissolved.
    NotDissolved,
}

impl Error {
    /// The number under which a contract reports this error.
    pub open spec fn spec_code(self) -> u32 {
        match self {
            Error::CircleNotFound => 1001,
            Error::Unauthorized => 1002,
            Error::AlreadyJoined => 1003,
            Error::MaxMembersReached => 1004,
            Error::AlreadyVoted => 1005,
            Error::NotMember => 1006,
            Error::AlreadyDissolved => 1007,
            Error::NotDissolved => 1008,
        }
    }

    /// The number under which a contract reports this error.
    pub fn code(&self) -> (r: u32)
        ensures
            r == self.spec_code(),
    {
        match self {
            Error::CircleNotFound => 1001,
            Error::Unauthorized => 1002,
            Error::AlreadyJoined => 1003,
            Error::MaxMembersReached => 1004,
            Error::AlreadyVoted => 1005,
            Error::NotMember => 1006,
            Error::AlreadyDissolved => 1007,
            Error::NotDissolved => 1008,
        }
    }
}

} // verus!
