use vstd::prelude::*;

use crate::error::ClientError;

verus! {

/// What resolving a future in state `state` with `outcome` leaves: a pending
/// future takes the outcome, a resolved one keeps its own.
pub open spec fn resolved_with<T>(
    state: Option<Result<T, ClientError>>,
    outcome: Result<T, ClientError>,
) -> Option<Result<T, ClientError>> {
    match state {
        None => Some(outcome),
        Some(o) => Some(o),
    }
}

/// The handle of one asynchronous operation. It starts pending, is resolved
/// once, and keeps that outcome from then on.
pub struct Future<T> {
    outcome: Option<Result<T, ClientError>>,
}

impl<T> View for Future<T> {
    type V = Option<Result<T, ClientError>>;

    /// `None` while pending, else the outcome.
    closed spec fn view(&self) -> Option<Result<T, ClientError>> {
        self.outcome
    }
}

impl<T> Future<T> {
    /// A pending future.
    pub fn pending() -> (r: Future<T>)
        ensures
            r@ is None,
    {
        Future { outcome: None }
    }

    /// A future that is already resolved with `outcome`.
    pub fn ready(outcome: Result<T, ClientError>) -> (r: Future<T>)
        ensures
            r@ == Some(outcome),
    {
        Future { outcome: Some(outcome) }
    }

    /// Whether the future is resolved.
    pub fn is_ready(&self) -> (r: bool)
        ensures
            r == self@ is Some,
    {
        self.outcome.is_some()
    }

    /// Resolves a pending future with `outcome`. A resolved future is left as
    /// it is, and the call fails with `Resource`.
    pub fn resolve(&mut self, outcome: Result<T, ClientError>) -> (r: Result<(), ClientError>)
        ensures
            final(self)@ == resolved_with(old(self)@, outcome),
            r is Ok <==> old(self)@ is None,
            r is Err ==> r == Err::<(), ClientError>(ClientError::Resource),
    {
        if self.outcome.is_some() {
            return Err(ClientError::Resource);
        }
        self.outcome = Some(outcome);
        Ok(())
    }

    /// The outcome, once resolved; `None` while pending. Reading leaves the
    /// future as it is, so every read of a resolved future gives the same.
    pub fn wait(&self) -> (r: Option<&Result<T, ClientError>>)
        ensures
            r is Some <==> self@ is Some,
            r is Some ==> self@ == Some(*r->0),
    {
        match &self.outcome {
            Some(o) => Some(o),
            None => None,
        }
    }

    /// Consumes the future and hands out its outcome; `None` while pending.
    pub fn into_outcome(self) -> (r: Option<Result<T, ClientError>>)
        ensures
            r == self@,
    {
        self.outcome
    }
}

/// Once a future is resolved, resolving it again changes nothing: every later
/// wait sees the first outcome.
pub proof fn lemma_resolution_is_final<T>(
    state: Option<Result<T, ClientError>>,
    first: Result<T, ClientError>,
    later: Result<T, ClientError>,
)
    ensures
        resolved_with(resolved_with(state, first), later) == resolved_with(state, first),
        state is None ==> resolved_with(resolved_with(state, first), later) == Some(first),
{
}

} // verus!
