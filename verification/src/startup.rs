//! The way to a serving endpoint: three steps in a fixed order, each of
//! which can fail, and every failure fatal.
//!
//! The steps themselves are outside work: generating keys, building a TLS
//! configuration, binding a socket. What is decided here is what a step's
//! outcome means: which step comes next, and which failure is reported.

use vstd::prelude::*;
use crate::error::StartupError;

verus! {

/// A step taken before the endpoint serves.
#[derive(Clone, Copy, Debug, PartialEq, Eq, Structural)]
pub enum StartupStep {
    /// Mint the TLS identity.
    MintIdentity,
    /// Build the TLS configuration from the identity.
    ConfigureTls,
    /// Bind the listening socket.
    Bind,
}

impl StartupStep {
    /// The failure reported when this step fails.
    pub open spec fn spec_failure(self) -> StartupError {
        match self {
            StartupStep::MintIdentity => StartupError::CertGenerationFailed,
            StartupStep::ConfigureTls => StartupError::TlsConfigFailed,
            StartupStep::Bind => StartupError::BindFailed,
        }
    }

    /// The failure reported when this step fails.
    pub fn failure(self) -> (error: StartupError)
        ensures
            error == self.spec_failure(),
    {
        match self {
            StartupStep::MintIdentity => StartupError::CertGenerationFailed,
            StartupStep::ConfigureTls => StartupError::TlsConfigFailed,
            StartupStep::Bind => StartupError::BindFailed,
        }
    }
}

/// How far a start has come.
#[derive(Clone, Copy, Debug, PartialEq, Eq, Structural)]
pub enum Startup {
    /// The given step is to be taken next.
    Pending(StartupStep),
    /// All steps succeeded; the endpoint serves.
    Serving,
    /// A step failed; the endpoint will not serve.
    Failed(StartupError),
}

impl Startup {
    /// Where a start stands once the pending step has succeeded or failed.
    /// Success moves on to the next step, and after the last to `Serving`;
    /// failure is final and names the step's failure. Nothing moves a start
    /// that serves or has failed.
    pub open spec fn after(self, succeeded: bool) -> Startup {
        match self {
            Startup::Pending(step) => if !succeeded {
                Startup::Failed(step.spec_failure())
            } else {
                match step {
                    StartupStep::MintIdentity => Startup::Pending(StartupStep::ConfigureTls),
                    StartupStep::ConfigureTls => Startup::Pending(StartupStep::Bind),
                    StartupStep::Bind => Startup::Serving,
                }
            },
            _ => self,
        }
    }

    /// Where a start stands after a run of outcomes, one per step taken.
    pub open spec fn after_all(self, outcomes: Seq<bool>) -> Startup
        decreases outcomes.len(),
    {
        if outcomes.len() == 0 {
            self
        } else {
            self.after_all(outcomes.drop_last()).after(outcomes.last())
        }
    }

    /// A start with every step still to be taken.
    pub fn begin() -> (startup: Startup)
        ensures
            startup == Startup::Pending(StartupStep::MintIdentity),
    {
        Startup::Pending(StartupStep::MintIdentity)
    }

    /// Records the outcome of the pending step.
    pub fn record(self, succeeded: bool) -> (next: Startup)
        ensures
            next == self.after(succeeded),
    {
        match self {
            Startup::Pending(step) => {
                if !succeeded {
                    Startup::Failed(step.failure())
                } else {
                    match step {
                        StartupStep::MintIdentity => Startup::Pending(StartupStep::ConfigureTls),
                        StartupStep::ConfigureTls => Startup::Pending(StartupStep::Bind),
                        StartupStep::Bind => Startup::Serving,
                    }
                }
            },
            Startup::Serving => Startup::Serving,
            Startup::Failed(error) => Startup::Failed(error),
        }
    }

    /// The failure that stopped the start, if one did.
    pub fn failure(&self) -> (error: Option<StartupError>)
        ensures
            error == (match *self {
                Startup::Failed(e) => Some(e),
                _ => None,
            }),
    {
        match self {
            Startup::Failed(error) => Some(*error),
            _ => None,
        }
    }
}

/// The step with the given position in the order of steps.
pub open spec fn step_at(position: int) -> StartupStep {
    if position <= 0 {
        StartupStep::MintIdentity
    } else if position == 1 {
        StartupStep::ConfigureTls
    } else {
        StartupStep::Bind
    }
}

/// While every step so far has succeeded, a start is at the step that
/// follows them, and serves once all three have succeeded.
pub proof fn law_successes_lead_to_serving(outcomes: Seq<bool>)
    requires
        forall|i: int| 0 <= i < outcomes.len() ==> outcomes[i],
    ensures
        Startup::Pending(StartupStep::MintIdentity).after_all(outcomes) == (if outcomes.len()
            < 3 {
            Startup::Pending(step_at(outcomes.len() as int))
        } else {
            Startup::Serving
        }),
    decreases outcomes.len(),
{
    if outcomes.len() > 0 {
        law_successes_lead_to_serving(outcomes.drop_last());
    }
}

/// The first failure among the three steps is fatal: the start has failed
/// with that step's failure, whatever is recorded afterwards.
pub proof fn law_first_failure_is_fatal(outcomes: Seq<bool>, first: int)
    requires
        0 <= first < outcomes.len(),
        first < 3,
        !outcomes[first],
        forall|i: int| 0 <= i < first ==> outcomes[i],
    ensures
        Startup::Pending(StartupStep::MintIdentity).after_all(outcomes) == Startup::Failed(
            step_at(first).spec_failure(),
        ),
    decreases outcomes.len(),
{
    let before = outcomes.drop_last();
    if first == outcomes.len() - 1 {
        law_successes_lead_to_serving(before);
    } else {
        law_first_failure_is_fatal(before, first);
    }
}

} // verus!
