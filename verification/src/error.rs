//! The failures a registry operation can report, and how each maps onto an
//! HTTP status line for the transport layer.

use vstd::prelude::*;

verus! {

/// The match is absent, or the caller may not learn that it exists.
#[derive(Clone, Copy, Debug, PartialEq, Eq, Structural)]
pub struct NotFoundError;

/// The caller presented no usable credential.
#[derive(Clone, Copy, Debug, PartialEq, Eq, Structural)]
pub struct UnauthorizedError;

/// A request value is outside the allowed sets, or the caller is not
/// eligible for the requested transition.
#[derive(Clone, Copy, Debug, PartialEq, Eq, Structural)]
pub struct InvalidInputError;

/// The roster is full, the match has left the open state, or the caller
/// already sits in the roster.
#[derive(Clone, Copy, Debug, PartialEq, Eq, Structural)]
pub struct CannotJoinMatchError;

/// The bounded number of random identifier draws was exhausted.
#[derive(Clone, Copy, Debug, PartialEq, Eq, Structural)]
pub struct IdGenerationError;

/// Publishing a state change found no live subscriber to deliver to.
#[derive(Clone, Copy, Debug, PartialEq, Eq, Structural)]
pub struct CannotBroadcastError;

/// The port pool is exhausted.
#[derive(Clone, Copy, Debug, PartialEq, Eq, Structural)]
pub struct NoAvailablePorts;

/// Every terminal, caller-visible failure of a registry operation.
#[derive(Clone, Copy, Debug, PartialEq, Eq, Structural)]
pub enum MatchError {
    NotFound(NotFoundError),
    Unauthorized(UnauthorizedError),
    InvalidInput(InvalidInputError),
    CannotJoinMatch(CannotJoinMatchError),
    CannotBroadcast(CannotBroadcastError),
    IdGeneration(IdGenerationError),
    NoAvailablePorts(NoAvailablePorts),
}

impl MatchError {
    /// The HTTP status each failure maps to: every error keeps a distinct
    /// response status within its class, and internal failures all surface
    /// as a server error.
    pub fn status_code(&self) -> (code: u16)
        ensures
            code == match *self {
                MatchError::NotFound(_) => 404u16,
                MatchError::Unauthorized(_) => 401u16,
                MatchError::InvalidInput(_) => 400u16,
                MatchError::CannotJoinMatch(_) => 403u16,
                MatchError::CannotBroadcast(_) => 500u16,
                MatchError::IdGeneration(_) => 500u16,
                MatchError::NoAvailablePorts(_) => 500u16,
            },
    {
        match *self {
            MatchError::NotFound(_) => 404,
            MatchError::Unauthorized(_) => 401,
            MatchError::InvalidInput(_) => 400,
            MatchError::CannotJoinMatch(_) => 403,
            MatchError::CannotBroadcast(_) => 500,
            MatchError::IdGeneration(_) => 500,
            MatchError::NoAvailablePorts(_) => 500,
        }
    }

    /// The body text the transport layer sends with the status.
    pub fn message(&self) -> (m: String)
        ensures
            m@ == match *self {
                MatchError::NotFound(_) => "Match not found"@,
                MatchError::Unauthorized(_) => "Unauthorized"@,
                MatchError::InvalidInput(_) => "Invalid input"@,
                MatchError::CannotJoinMatch(_) => "Cannot join selected match"@,
                MatchError::CannotBroadcast(_) => "Broadcasting failed"@,
                MatchError::IdGeneration(_) => "ID generation failed"@,
                MatchError::NoAvailablePorts(_) => "No available ports"@,
            },
    {
        match *self {
            MatchError::NotFound(_) => String::from_str("Match not found"),
            MatchError::Unauthorized(_) => String::from_str("Unauthorized"),
            MatchError::InvalidInput(_) => String::from_str("Invalid input"),
            MatchError::CannotJoinMatch(_) => String::from_str("Cannot join selected match"),
            MatchError::CannotBroadcast(_) => String::from_str("Broadcasting failed"),
            MatchError::IdGeneration(_) => String::from_str("ID generation failed"),
            MatchError::NoAvailablePorts(_) => String::from_str("No available ports"),
        }
    }
}

} // verus!
