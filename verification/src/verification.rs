//! The verification of a proof as a state machine.
//!
//! The backend does the work: it makes a verification context, loads the
//! verification key into it, and checks the proof. A [`Verification`] says which
//! of these it waits for and what their outcomes amount to. A proof that does
//! not hold is a result, `false`; only a call that the backend could not carry
//! out is an error.

use vstd::prelude::*;
use crate::error::ProveError;

verus! {

/// The size of the verification context. A verifier needs none of the prover's
/// SRS, so the smallest size will do.
pub const VERIFIER_SIZE_HINT: u32 = 1;

/// The work that a verification waits for.
#[derive(Clone, Copy, Debug, PartialEq, Eq, Structural)]
pub enum VerifyAction {
    /// Make a verification context of this size.
    CreateContext { size_hint: u32 },
    /// Load the verification key into the context.
    LoadKey,
    /// Let the context check the proof.
    CheckProof,
    /// Nothing: the verdict is there.
    Finish,
    /// Nothing: the verification has failed.
    Abort,
}

/// The outcome of the work that a verification waited for.
#[derive(Debug, PartialEq, Eq)]
pub enum VerifyEvent {
    /// The context was made, or could not be.
    ContextCreated(Result<(), String>),
    /// The key was loaded, or was refused.
    KeyLoaded(Result<(), String>),
    /// The proof was checked, with this verdict, or could not be.
    Checked(Result<bool, String>),
}

/// A verification under way.
#[derive(Debug, PartialEq, Eq)]
pub enum Verification {
    /// The context is to be made.
    Creating,
    /// The key is to be loaded.
    LoadingKey,
    /// The proof is to be checked.
    Checking,
    /// The proof was checked: it holds, or it does not.
    Done(bool),
    /// The backend could not carry out the verification.
    Failed(ProveError),
}

impl Verification {
    /// The action that the verification waits for.
    pub open spec fn spec_pending(self) -> VerifyAction {
        match self {
            Verification::Creating => VerifyAction::CreateContext { size_hint: VERIFIER_SIZE_HINT },
            Verification::LoadingKey => VerifyAction::LoadKey,
            Verification::Checking => VerifyAction::CheckProof,
            Verification::Done(_) => VerifyAction::Finish,
            Verification::Failed(_) => VerifyAction::Abort,
        }
    }

    /// The state that the verification reaches on `event`: the next stage on
    /// success, the error on a failure of the backend, and the state as it is on
    /// an event that it does not wait for.
    pub open spec fn spec_step(self, event: VerifyEvent) -> Verification {
        match (self, event) {
            (Verification::Creating, VerifyEvent::ContextCreated(Ok(_))) => Verification::LoadingKey,
            (Verification::Creating, VerifyEvent::ContextCreated(Err(message))) => Verification::Failed(
                ProveError::Verification(message),
            ),
            (Verification::LoadingKey, VerifyEvent::KeyLoaded(Ok(_))) => Verification::Checking,
            (Verification::LoadingKey, VerifyEvent::KeyLoaded(Err(message))) => Verification::Failed(
                ProveError::Verification(message),
            ),
            (Verification::Checking, VerifyEvent::Checked(Ok(valid))) => Verification::Done(valid),
            (Verification::Checking, VerifyEvent::Checked(Err(message))) => Verification::Failed(
                ProveError::Verification(message),
            ),
            _ => self,
        }
    }

    /// The verdict, the error, or nothing as long as the verification waits for
    /// work.
    pub open spec fn spec_outcome(self) -> Option<Result<bool, ProveError>> {
        match self {
            Verification::Done(valid) => Some(Ok(valid)),
            Verification::Failed(e) => Some(Err(e)),
            _ => None,
        }
    }

    /// Starts a verification: it waits for a context of the smallest size.
    pub fn start() -> (r: (Verification, VerifyAction))
        ensures
            r.0 == Verification::Creating,
            r.1 == (VerifyAction::CreateContext { size_hint: 1 }),
            r.1 == r.0.spec_pending(),
    {
        (Verification::Creating, VerifyAction::CreateContext { size_hint: VERIFIER_SIZE_HINT })
    }

    /// The action that the verification waits for.
    pub fn pending(&self) -> (r: VerifyAction)
        ensures
            r == self.spec_pending(),
    {
        match self {
            Verification::Creating => VerifyAction::CreateContext { size_hint: VERIFIER_SIZE_HINT },
            Verification::LoadingKey => VerifyAction::LoadKey,
            Verification::Checking => VerifyAction::CheckProof,
            Verification::Done(_) => VerifyAction::Finish,
            Verification::Failed(_) => VerifyAction::Abort,
        }
    }

    /// Moves the verification on by the outcome of the work that it waited for,
    /// and says what it waits for next.
    pub fn step(self, event: VerifyEvent) -> (r: (Verification, VerifyAction))
        ensures
            r.0 == self.spec_step(event),
            r.1 == r.0.spec_pending(),
    {
        match (self, event) {
            (Verification::Creating, VerifyEvent::ContextCreated(Ok(_))) => (
                Verification::LoadingKey,
                VerifyAction::LoadKey,
            ),
            (Verification::Creating, VerifyEvent::ContextCreated(Err(message))) => (
                Verification::Failed(ProveError::Verification(message)),
                VerifyAction::Abort,
            ),
            (Verification::LoadingKey, VerifyEvent::KeyLoaded(Ok(_))) => (
                Verification::Checking,
                VerifyAction::CheckProof,
            ),
            (Verification::LoadingKey, VerifyEvent::KeyLoaded(Err(message))) => (
                Verification::Failed(ProveError::Verification(message)),
                VerifyAction::Abort,
            ),
            (Verification::Checking, VerifyEvent::Checked(Ok(valid))) => (
                Verification::Done(valid),
                VerifyAction::Finish,
            ),
            (Verification::Checking, VerifyEvent::Checked(Err(message))) => (
                Verification::Failed(ProveError::Verification(message)),
                VerifyAction::Abort,
            ),
            (other, _) => {
                let action: VerifyAction = other.pending();
                (other, action)
            },
        }
    }

    /// The verdict, the error, or `None` as long as the verification waits for
    /// work.
    pub fn outcome(self) -> (r: Option<Result<bool, ProveError>>)
        ensures
            r == self.spec_outcome(),
    {
        match self {
            Verification::Done(valid) => Some(Ok(valid)),
            Verification::Failed(e) => Some(Err(e)),
            _ => None,
        }
    }
}

/// A proof that the backend checked and found wanting gives the verdict `false`,
/// and no error: the two stay apart.
pub proof fn lemma_invalid_proof_is_no_error(valid: bool)
    ensures
        Verification::Checking.spec_step(VerifyEvent::Checked(Ok(valid))).spec_outcome() == Some(
            Ok::<bool, ProveError>(valid),
        ),
{
}

} // verus!
