//! The layout request with a buffer of unknown size: the buffer doubles on
//! every "too small" answer until the request succeeds or fails otherwise.

use vstd::prelude::*;
use crate::error::ListError;

verus! {

/// Capacity of the buffer of the first request.
pub const INITIAL_CAPACITY: usize = 256;

/// Largest buffer that one request can describe: its length is a 32-bit field.
pub const MAX_CAPACITY: usize = 0xFFFF_FFFF;

/// OS error code of an insufficient buffer (HRESULT 0x8007007A), reported
/// when the buffer is still too small at the largest capacity.
pub const INSUFFICIENT_BUFFER: i32 = -2147024774;

/// What opening a device reported.
#[derive(Clone, Copy, Debug, PartialEq, Eq, Structural)]
pub enum OpenOutcome {
    Opened,
    /// No device has that index.
    NotFound,
    /// The device exists but cannot be opened; carries the OS error code.
    Denied(i32),
}

/// What one layout request reported.
#[derive(Clone, Copy, Debug, PartialEq, Eq, Structural)]
pub enum ControlOutcome {
    /// Success, with the number of valid bytes written to the buffer.
    Written(u32),
    /// The buffer was too small; the size needed is not reported.
    TooSmall,
    /// Any other failure; carries the OS error code.
    Failed(i32),
}

/// What to do after a request.
#[derive(Clone, Copy, Debug, PartialEq, Eq, Structural)]
pub enum QueryStep {
    /// Request again with a buffer of this capacity.
    Retry(usize),
    /// Done: this many bytes of the buffer are valid.
    Done(usize),
    /// Give up with this error.
    Fail(ListError),
}

/// What follows a request made with a buffer of `capacity` bytes: twice the
/// capacity on "too small" while that still fits a request, the number of
/// valid bytes on success when they fit the buffer, an error otherwise.
pub open spec fn query_step(capacity: usize, outcome: ControlOutcome) -> QueryStep {
    match outcome {
        ControlOutcome::TooSmall => if capacity <= MAX_CAPACITY / 2 {
            QueryStep::Retry((2 * capacity) as usize)
        } else {
            QueryStep::Fail(ListError::Io(INSUFFICIENT_BUFFER))
        },
        ControlOutcome::Written(n) => if n <= capacity {
            QueryStep::Done(n as usize)
        } else {
            QueryStep::Fail(ListError::Decode)
        },
        ControlOutcome::Failed(code) => QueryStep::Fail(ListError::Io(code)),
    }
}

/// Decides what follows a request made with a buffer of `capacity` bytes.
pub fn next_query_step(capacity: usize, outcome: ControlOutcome) -> (s: QueryStep)
    ensures
        s == query_step(capacity, outcome),
{
    match outcome {
        ControlOutcome::TooSmall => {
            if capacity <= MAX_CAPACITY / 2 {
                QueryStep::Retry(2 * capacity)
            } else {
                QueryStep::Fail(ListError::Io(INSUFFICIENT_BUFFER))
            }
        },
        ControlOutcome::Written(n) => {
            if n as usize <= capacity {
                QueryStep::Done(n as usize)
            } else {
                QueryStep::Fail(ListError::Decode)
            }
        },
        ControlOutcome::Failed(code) => QueryStep::Fail(ListError::Io(code)),
    }
}

/// Capacity of the request that follows `k` "too small" answers.
pub open spec fn capacity_after(k: nat) -> nat
    decreases k,
{
    if k == 0 {
        INITIAL_CAPACITY as nat
    } else {
        2 * capacity_after((k - 1) as nat)
    }
}

/// Answer of a device whose response has `size` bytes to a request with a
/// buffer of `capacity` bytes: "too small" exactly when the response does not fit.
pub open spec fn fitting_answer(capacity: usize, size: u32) -> ControlOutcome {
    if capacity < size {
        ControlOutcome::TooSmall
    } else {
        ControlOutcome::Written(size)
    }
}

/// Capacities only grow from one request to the next.
pub proof fn lemma_capacity_after_grows(j: nat, k: nat)
    requires
        j <= k,
    ensures
        capacity_after(j) <= capacity_after(k),
    decreases k - j,
{
    if j < k {
        lemma_capacity_after_grows(j, (k - 1) as nat);
    }
}

} // verus!
