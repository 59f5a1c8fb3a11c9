//! What can go wrong in one attempt, and what a caller finally gets.

use vstd::prelude::*;

verus! {

/// The failure of a single attempt.
#[derive(Clone, Copy, Debug, PartialEq, Eq, Structural)]
pub enum Failure {
    /// The URL is malformed, or no file name can be derived from it.
    Parse,
    /// The transport failed: connection refused, timeout, name resolution,
    /// or a body that broke off.
    Network,
    /// The server answered with a status outside 200..=299.
    Status(u16),
    /// The body is not what was asked for (malformed text or JSON).
    Decode,
    /// The local file system refused.
    Io,
}

impl Failure {
    /// Transient failures are worth another attempt; the others are final.
    pub open spec fn transient(self) -> bool {
        self is Parse || self is Network || self is Status
    }

    /// Whether the retry policy should try again after this failure.
    pub fn is_transient(&self) -> (r: bool)
        ensures
            r == self.transient(),
    {
        match self {
            Failure::Parse => true,
            Failure::Network => true,
            Failure::Status(_) => true,
            Failure::Decode => false,
            Failure::Io => false,
        }
    }
}

/// The final failure of an operation that ran under a retry policy.
#[derive(Clone, Copy, Debug, PartialEq, Eq, Structural)]
pub enum RetryError {
    /// A failure that is not transient, surfaced at once.
    Failed(Failure),
    /// Every permitted attempt failed with a transient failure. `attempts` is
    /// the number of attempts made and `last` the failure of the last one
    /// (`None` only where the policy permits no attempt at all).
    RetriesExhausted { attempts: u32, last: Option<Failure> },
}

impl RetryError {
    /// The single-attempt failure behind this error, if there is one.
    pub open spec fn cause_spec(self) -> Option<Failure> {
        match self {
            RetryError::Failed(f) => Some(f),
            RetryError::RetriesExhausted { attempts: _, last } => last,
        }
    }

    /// The single-attempt failure behind this error, if there is one.
    pub fn cause(&self) -> (r: Option<Failure>)
        ensures
            r == self.cause_spec(),
    {
        match self {
            RetryError::Failed(f) => Some(*f),
            RetryError::RetriesExhausted { attempts: _, last } => *last,
        }
    }
}

} // verus!
