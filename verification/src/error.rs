//! Error taxonomy for claiming temporary paths.
//!
//! A single claim attempt can collide with an existing entry (a conflict,
//! recovered by retrying) or fail for any other reason (propagated at once).
//! When the retry budget runs out, the claim loop reports resource
//! exhaustion, a kind of its own so that callers can tell it apart from a
//! raw collision on a single path, while `is_already_exists` still presents
//! the two uniformly.

use vstd::prelude::*;

verus! {

/// What went wrong while claiming or cleaning up a temporary path.
#[derive(Clone, Copy, PartialEq, Eq, Structural, Debug)]
pub enum ErrorKind {
    /// A candidate path collided with an existing filesystem entry.
    AlreadyExists,
    /// The retry budget was exhausted without claiming a path.
    Exhausted,
    /// Any other failure, never retried.
    Other,
}

/// What one claim attempt reports back to the loop.
///
/// `AlreadyExists` is a conflict and consumes one retry; `Other` carries a
/// description of the underlying failure and is propagated immediately.
#[derive(Debug)]
pub enum AttemptError {
    AlreadyExists,
    Other(String),
}

/// A failure annotated with the path involved, so that callers can diagnose
/// it without knowing which candidate was being attempted.
#[derive(Debug)]
pub struct Error {
    pub kind: ErrorKind,
    /// The path the failure is about: the attempted candidate for `Other`,
    /// the base directory for `Exhausted`.
    pub path: String,
    /// Description of the underlying failure.
    pub message: String,
}

impl Error {
    /// Whether this failure is, or stands for, a collision with an existing
    /// entry. Exhaustion counts too: it only ever arises from collisions, and
    /// callers may treat the two uniformly.
    pub fn is_already_exists(&self) -> (r: bool)
        ensures
            r == (self.kind == ErrorKind::AlreadyExists || self.kind == ErrorKind::Exhausted),
    {
        match self.kind {
            ErrorKind::AlreadyExists => true,
            ErrorKind::Exhausted => true,
            ErrorKind::Other => false,
        }
    }
}

} // verus!
