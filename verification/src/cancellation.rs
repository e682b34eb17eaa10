//! Cooperative cancellation shared by every clone of a token.

use std::sync::atomic::AtomicBool;
use std::sync::Arc;

use vstd::prelude::*;

use crate::error::{FrameworkError, WorkError};

verus! {

/// A cheap, cloneable cooperative cancellation flag.
#[derive(Clone, Debug)]
pub struct CancellationToken {
    cancelled: Arc<AtomicBool>,
}

/// What a cancellation check returns for a flag: `Cancelled` once it is raised.
pub fn cancellation_result(cancelled: bool) -> (r: Result<(), FrameworkError>)
    ensures
        cancelled ==> r == Err::<(), FrameworkError>(FrameworkError::Cancelled),
        !cancelled ==> r is Ok,
{
    if cancelled {
        Err(FrameworkError::Cancelled)
    } else {
        Ok(())
    }
}

impl CancellationToken {
    /// Creates a token in the active state.
    pub fn new() -> (r: Self) {
        CancellationToken { cancelled: Arc::new(AtomicBool::new(false)) }
    }

    /// Requests cancellation for all clones of this token.
    pub fn cancel(&self) {
        self.cancelled.store(true, std::sync::atomic::Ordering::SeqCst)
    }

    /// Returns `true` after cancellation has been requested. Any clone may request it
    /// at any time, so nothing is stated about the flag read.
    pub fn is_cancelled(&self) -> (b: bool) {
        self.cancelled.load(std::sync::atomic::Ordering::SeqCst)
    }

    /// Converts the current cancellation state into a framework error.
    pub fn check(&self) -> (r: Result<(), FrameworkError>)
        ensures
            r is Ok || r == Err::<(), FrameworkError>(FrameworkError::Cancelled),
    {
        cancellation_result(self.is_cancelled())
    }

    /// Converts the current cancellation state into a work error.
    pub fn check_work<E>(&self) -> (r: Result<(), WorkError<E>>)
        ensures
            r is Ok || r == Err::<(), WorkError<E>>(WorkError::Framework(FrameworkError::Cancelled)),
    {
        match self.check() {
            Ok(()) => Ok(()),
            Err(e) => Err(WorkError::Framework(e)),
        }
    }
}

} // verus!
