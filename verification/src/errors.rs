//! The typed failures of the registration protocol.  None of them is ever
//! swallowed: every failure is handed back to the caller, and no retry
//! happens anywhere in the core, because a blind retry could double-register
//! a hop.

use vstd::prelude::*;

verus! {

/// Why a registration attempt failed.
pub enum ProtocolError {
    /// The registry could not be read: the messaging-capability module is
    /// not installed, or the chain node is unreachable.  The caller may
    /// retry after mending that.
    ChainQueryFailed,
    /// No terminal acknowledgement arrived within the caller's policy
    /// window.  Possibly a transient relay delay: the caller decides whether
    /// to re-invoke.
    RegistrationTimedOut,
    /// The destination rejected the create instruction.  Fatal for this
    /// attempt; the payload is kept for investigation.
    RegistrationErrorAck { payload: Vec<u8> },
    /// The relay acknowledged success but the re-queried registry does not
    /// list the hop: a consistency bug between registry and relay, always
    /// surfaced.
    ProtocolInvariantViolation,
}

/// The mathematical value of a failure.
pub enum ErrorModel {
    ChainQueryFailed,
    RegistrationTimedOut,
    RegistrationErrorAck { payload: Seq<u8> },
    ProtocolInvariantViolation,
}

impl ProtocolError {
    pub open spec fn model(&self) -> ErrorModel {
        match self {
            ProtocolError::ChainQueryFailed => ErrorModel::ChainQueryFailed,
            ProtocolError::RegistrationTimedOut => ErrorModel::RegistrationTimedOut,
            ProtocolError::RegistrationErrorAck { payload } => ErrorModel::RegistrationErrorAck {
                payload: payload@,
            },
            ProtocolError::ProtocolInvariantViolation => ErrorModel::ProtocolInvariantViolation,
        }
    }
}

impl Clone for ProtocolError {
    fn clone(&self) -> (r: Self)
        ensures
            r.model() == self.model(),
    {
        match self {
            ProtocolError::ChainQueryFailed => ProtocolError::ChainQueryFailed,
            ProtocolError::RegistrationTimedOut => ProtocolError::RegistrationTimedOut,
            ProtocolError::RegistrationErrorAck { payload } => ProtocolError::RegistrationErrorAck {
                payload: payload.clone(),
            },
            ProtocolError::ProtocolInvariantViolation => ProtocolError::ProtocolInvariantViolation,
        }
    }
}

} // verus!
