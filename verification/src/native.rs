//! The way back from native code: what the managed caller of a native
//! method sees when the native code is done.

use crate::error::{error_text, Error};
use vstd::prelude::*;
use vstd::string::*;

verus! {

/// How a native method ends for the managed runtime that called it.
pub enum Completion<V, T> {
    /// The method returns a value.
    Return(V),
    /// The method throws again what managed code had thrown at the native
    /// code.
    Rethrow(T),
    /// The method throws a new exception that carries the message of a
    /// failure of the native code.
    Throw { message: String },
}

/// How a native method ends, given what the native code gave: a value is
/// returned; every failure reaches the caller as an exception of the managed
/// runtime, never as a value.
pub fn complete<V, T>(outcome: Result<V, Error<T>>) -> (completion: Completion<V, T>)
    ensures
        match outcome {
            Ok(value) => completion == Completion::<V, T>::Return(value),
            Err(Error::Thrown(thrown)) => completion == Completion::<V, T>::Rethrow(thrown),
            Err(e) => completion matches Completion::Throw { message } && message@ == error_text(
                e,
                Seq::empty(),
            ),
        },
{
    match outcome {
        Ok(value) => Completion::Return(value),
        Err(Error::Thrown(thrown)) => Completion::Rethrow(thrown),
        Err(e) => Completion::Throw { message: e.message("") },
    }
}

} // verus!
