//! Operations on the radio are given a bound. One that runs out of time
//! counts as one that failed.

use vstd::prelude::*;

verus! {

/// The bound of an operation ran out before the operation ended.
#[derive(Clone, Copy, Debug, PartialEq, Eq, Structural)]
pub struct Elapsed;

/// Why an operation gave no result.
#[derive(Clone, Copy, Debug, PartialEq, Eq, Structural)]
pub enum Failure {
    /// Its bound ran out.
    Elapsed,
    /// The platform reported an error.
    Platform,
}

/// What is left of a bounded wait: the operation's result if it ended in
/// time and well, one failure otherwise.
pub open spec fn flattened<T, E>(waited: Result<Result<T, E>, Elapsed>) -> Result<T, Failure> {
    match waited {
        Ok(Ok(value)) => Ok(value),
        Ok(Err(_)) => Err(Failure::Platform),
        Err(_) => Err(Failure::Elapsed),
    }
}

/// Turns the outcome of a bounded wait (outside: did it end in time;
/// inside: did it go well) into one result with one kind of error.
pub fn flatten_timeout<T, E>(waited: Result<Result<T, E>, Elapsed>) -> (settled: Result<
    T,
    Failure,
>)
    ensures
        settled == flattened(waited),
{
    match waited {
        Ok(Ok(value)) => Ok(value),
        Ok(Err(_)) => Err(Failure::Platform),
        Err(_) => Err(Failure::Elapsed),
    }
}

/// A bounded wait gives a result exactly when the operation ended in time
/// and went well, and then it is that result.
pub proof fn lemma_flattened_ok<T, E>(waited: Result<Result<T, E>, Elapsed>)
    ensures
        flattened(waited) is Ok <==> waited matches Ok(Ok(_)),
        flattened(waited) matches Ok(value) ==> waited == Ok::<Result<T, E>, Elapsed>(Ok(value)),
        flattened(waited) == Err::<T, Failure>(Failure::Elapsed) <==> waited is Err,
        flattened(waited) == Err::<T, Failure>(Failure::Platform) <==> waited matches Ok(Err(_)),
{
}

} // verus!
