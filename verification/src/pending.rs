//! The status of a computation that finishes later: not started, still
//! running, or finished with a result.
use vstd::prelude::*;
use crate::errors::BackendError;

verus! {

/// Where a computation that finishes later stands. The computation itself
/// is kept by whoever runs it; this holds what the logic reads of it.
pub enum AsyncResult<T> {
    /// No computation was started.
    Empty,
    /// A computation was started and has not finished.
    Waiting,
    /// The computation finished with this result.
    Result(Result<T, BackendError>),
}

impl<T> Default for AsyncResult<T> {
    /// A status with no computation started.
    fn default() -> (r: Self)
        ensures
            r is Empty,
    {
        AsyncResult::Empty
    }
}

impl<T> AsyncResult<T> {
    /// Whether no computation was started.
    pub fn is_empty(&self) -> (b: bool)
        ensures
            b <==> self is Empty,
    {
        match self {
            AsyncResult::Empty => true,
            _ => false,
        }
    }

    /// Whether a computation is running.
    pub fn is_waiting(&self) -> (b: bool)
        ensures
            b <==> self is Waiting,
    {
        match self {
            AsyncResult::Waiting => true,
            _ => false,
        }
    }

    /// Whether the computation finished.
    pub fn is_complete(&self) -> (b: bool)
        ensures
            b <==> self is Result,
    {
        match self {
            AsyncResult::Result(_) => true,
            _ => false,
        }
    }

    /// The result of the computation; an error if none was started or it
    /// has not finished.
    pub fn as_result(self) -> (r: Result<T, BackendError>)
        ensures
            self is Empty ==> r == Err::<T, BackendError>(BackendError::EmptyAsyncResult),
            self is Waiting ==> r == Err::<T, BackendError>(BackendError::WaitingAsyncResult),
            self matches AsyncResult::Result(res) ==> r == res,
    {
        match self {
            AsyncResult::Empty => Err(BackendError::EmptyAsyncResult),
            AsyncResult::Waiting => Err(BackendError::WaitingAsyncResult),
            AsyncResult::Result(res) => res,
        }
    }

    /// Records a look at the running computation: `outcome` is its result
    /// if it has finished, `None` if it has not. Only a running computation
    /// can finish; any other status stays as it is. Returns whether the
    /// status is settled (it is, unless the computation is still running).
    pub fn on_polled(&mut self, outcome: Option<Result<T, BackendError>>) -> (ready: bool)
        ensures
            *old(self) is Waiting ==> match outcome {
                Some(res) => *final(self) == AsyncResult::Result(res) && ready,
                None => *final(self) == AsyncResult::<T>::Waiting && !ready,
            },
            !(*old(self) is Waiting) ==> *final(self) == *old(self) && ready,
    {
        if self.is_waiting() {
            match outcome {
                Some(res) => {
                    *self = AsyncResult::Result(res);
                    true
                },
                None => false,
            }
        } else {
            true
        }
    }
}

} // verus!
