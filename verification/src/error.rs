//! The errors of the bridge.

use crate::text::{decimal, push_decimal};
use vstd::prelude::*;
use vstd::string::*;

verus! {

/// What can go wrong when native code works with the managed runtime.
/// `T` is the reference to what was thrown.
pub enum Error<T> {
    /// Managed code threw, and nothing caught it.
    Thrown(T),
    /// A slice is longer than an array of the managed runtime can be.
    SliceTooLong(usize),
    /// A null reference was used where an object is needed.
    NullDeref,
    /// An entry into the managed runtime was made inside another.
    NestedUsage,
    /// The managed runtime was launched when one existed already.
    JvmAlreadyExists,
    /// The bridge or the runtime itself is at fault.
    JvmInternal(String),
}

/// The words for what was thrown: its own message, or why none could be
/// had.
pub open spec fn thrown_text(outcome: Result<Seq<char>, Seq<char>>) -> Seq<char> {
    match outcome {
        Ok(message) => message,
        Err(why) => "failed to get message: "@ + why,
    }
}

/// The words for what was thrown, given the outcome of asking it for its
/// message.
pub fn try_extract_message(outcome: Result<String, String>) -> (text: String)
    ensures
        text@ == thrown_text(
            match outcome {
                Ok(m) => Ok(m@),
                Err(w) => Err(w@),
            },
        ),
{
    match outcome {
        Ok(message) => message,
        Err(why) => {
            let mut text = String::from_str("failed to get message: ");
            text.append(why.as_str());
            text
        },
    }
}

/// The message of an error, given the words for what was thrown.
pub open spec fn error_text<T>(error: Error<T>, thrown: Seq<char>) -> Seq<char> {
    match error {
        Error::Thrown(_) => "Java invocation threw: "@ + thrown,
        Error::SliceTooLong(n) => "slice was too long (`"@ + decimal(n as nat)
            + "`) to convert to a Java array, which are limited to `i32::MAX`"@,
        Error::NullDeref => "attempted to deref a null Java object pointer"@,
        Error::NestedUsage => "attempted to nest `Jvm::with` calls"@,
        Error::JvmAlreadyExists => "JVM already exists"@,
        Error::JvmInternal(message) => message@,
    }
}

impl<T> Error<T> {
    /// The message of this error. `thrown` holds the words for what was
    /// thrown; it is read only where something was.
    pub fn message(&self, thrown: &str) -> (text: String)
        ensures
            text@ == error_text(*self, thrown@),
    {
        match self {
            Error::Thrown(_) => {
                let mut text = String::from_str("Java invocation threw: ");
                text.append(thrown);
                text
            },
            Error::SliceTooLong(n) => {
                let mut text = String::from_str("slice was too long (`");
                push_decimal(&mut text, *n as u128);
                text.append("`) to convert to a Java array, which are limited to `i32::MAX`");
                text
            },
            Error::NullDeref => String::from_str("attempted to deref a null Java object pointer"),
            Error::NestedUsage => String::from_str("attempted to nest `Jvm::with` calls"),
            Error::JvmAlreadyExists => String::from_str("JVM already exists"),
            Error::JvmInternal(message) => message.clone(),
        }
    }

    /// What was thrown, if this error stands for something that was.
    pub fn thrown(&self) -> (t: Option<&T>)
        ensures
            match *self {
                Error::Thrown(x) => t == Some(&x),
                _ => t is None,
            },
    {
        match self {
            Error::Thrown(x) => Some(x),
            _ => None,
        }
    }

    /// This error with another reference to what was thrown: the one that
    /// is given in place of the one that is held. Where something was
    /// thrown and no reference to it is given, the error becomes a fault of
    /// the runtime; an error that holds no reference stays as it is.
    pub fn replace_thrown<U>(self, kept: Option<U>) -> (e: Error<U>)
        ensures
            match self {
                Error::Thrown(_) => match kept {
                    Some(k) => e == Error::Thrown(k),
                    None => e matches Error::JvmInternal(m) && m@
                        == "the runtime gave no reference to what was thrown"@,
                },
                Error::SliceTooLong(n) => e == Error::<U>::SliceTooLong(n),
                Error::NullDeref => e == Error::<U>::NullDeref,
                Error::NestedUsage => e == Error::<U>::NestedUsage,
                Error::JvmAlreadyExists => e == Error::<U>::JvmAlreadyExists,
                Error::JvmInternal(m) => e == Error::<U>::JvmInternal(m),
            },
    {
        match self {
            Error::Thrown(_) => match kept {
                Some(k) => Error::Thrown(k),
                None => Error::JvmInternal(
                    String::from_str("the runtime gave no reference to what was thrown"),
                ),
            },
            Error::SliceTooLong(n) => Error::SliceTooLong(n),
            Error::NullDeref => Error::NullDeref,
            Error::NestedUsage => Error::NestedUsage,
            Error::JvmAlreadyExists => Error::JvmAlreadyExists,
            Error::JvmInternal(m) => Error::JvmInternal(m),
        }
    }

    /// Whether this error stands for something that managed code threw,
    /// rather than for a fault of the bridge.
    pub fn is_thrown(&self) -> (b: bool)
        ensures
            b == (*self is Thrown),
    {
        match self {
            Error::Thrown(_) => true,
            _ => false,
        }
    }
}

} // verus!
