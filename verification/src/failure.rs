//! The kinds of failure a command can meet, and what the caller does about
//! each: abort, go on, or report.

use vstd::prelude::*;

verus! {

/// A kind of failure.
#[derive(Clone, Copy, Debug, PartialEq, Eq, Structural)]
pub enum FailureKind {
    /// Inventory or metrics could not be reached.
    RetrievalFailure,
    /// The configured policy breaks a rule.
    PolicyViolation,
    /// A metric that the evaluation of one resource needs is missing.
    MetricsUnavailable,
    /// Applying one action failed.
    ExecutionFailure,
    /// The user declined to confirm.
    UserAbort,
}

/// What the caller does when it meets a failure.
#[derive(Clone, Copy, Debug, PartialEq, Eq, Structural)]
pub enum Routing {
    /// End the command with an error; nothing is proposed or applied.
    AbortCommand,
    /// Leave the one resource out, warn, and go on with the others.
    SkipResource,
    /// Record the failure with the action and go on with the others.
    RecordAndContinue,
    /// End the command; this is no error.
    EndNormally,
}

impl FailureKind {
    /// What the caller does about a failure of this kind.
    pub open spec fn route(self) -> Routing {
        match self {
            FailureKind::RetrievalFailure => Routing::AbortCommand,
            FailureKind::PolicyViolation => Routing::AbortCommand,
            FailureKind::MetricsUnavailable => Routing::SkipResource,
            FailureKind::ExecutionFailure => Routing::RecordAndContinue,
            FailureKind::UserAbort => Routing::EndNormally,
        }
    }

    /// The failure ends the whole command with an error.
    pub open spec fn fatal(self) -> bool {
        self.route() == Routing::AbortCommand
    }

    /// What the caller does about a failure of this kind.
    pub fn routing(&self) -> (r: Routing)
        ensures
            r == self.route(),
    {
        match self {
            FailureKind::RetrievalFailure => Routing::AbortCommand,
            FailureKind::PolicyViolation => Routing::AbortCommand,
            FailureKind::MetricsUnavailable => Routing::SkipResource,
            FailureKind::ExecutionFailure => Routing::RecordAndContinue,
            FailureKind::UserAbort => Routing::EndNormally,
        }
    }

    /// Whether the failure ends the whole command with an error.
    pub fn is_fatal(&self) -> (r: bool)
        ensures
            r == self.fatal(),
            r <==> (*self == FailureKind::RetrievalFailure || *self
                == FailureKind::PolicyViolation),
    {
        match self {
            FailureKind::RetrievalFailure => true,
            FailureKind::PolicyViolation => true,
            _ => false,
        }
    }

    /// Whether the failure counts as an error at all; a user's refusal does
    /// not.
    pub fn is_error(&self) -> (r: bool)
        ensures
            r == (self.route() != Routing::EndNormally),
            r <==> *self != FailureKind::UserAbort,
    {
        match self {
            FailureKind::UserAbort => false,
            _ => true,
        }
    }
}

} // verus!
