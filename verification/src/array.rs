//! Arrays of the managed runtime.

use crate::error::Error;
use crate::jvm::{JavaObject, JavaType};
use crate::text::{push_signed_decimal, signed_decimal};
use std::marker::PhantomData;
use vstd::prelude::*;
use vstd::string::*;

verus! {

/// The type of arrays whose elements have the type `T`.
pub struct JavaArray<T: JavaType> {
    _element: PhantomData<T>,
}

impl<T: JavaType> JavaType for JavaArray<T> {
    /// An array of arrays: one more bracket.
    open spec fn array_class_spec() -> Seq<char> {
        "["@ + T::array_class_spec()
    }

    fn array_class() -> (name: String) {
        let mut name = String::from_str("[");
        let element = T::array_class();
        name.append(element.as_str());
        name
    }
}

impl<T: JavaType> JavaObject for JavaArray<T> {
    /// The class of an array type is the array class of its elements.
    open spec fn class_spec() -> Seq<char> {
        T::array_class_spec()
    }

    fn class() -> (name: String) {
        T::array_class()
    }
}

/// The operation that asks an array for its length.
pub struct Length<This, T> {
    this: This,
    element: PhantomData<T>,
}

impl<This, T> Length<This, T> {
    /// The operation that gives the array.
    pub closed spec fn array(&self) -> This {
        self.this
    }

    /// The operation that gives the array, to be run first.
    pub fn into_array(self) -> (this: This)
        ensures
            this == self.array(),
    {
        self.this
    }
}

/// Operations that give an array can be asked for the array's length.
pub trait JavaArrayExt<T: JavaType>: Sized {
    /// The operation that runs this one and asks the array for its length.
    fn length(self) -> (length: Length<Self, T>)
        ensures
            length.array() == self,
    ;
}

impl<This, T: JavaType> JavaArrayExt<T> for This {
    fn length(self) -> (length: Length<Self, T>) {
        Length { this: self, element: PhantomData }
    }
}

/// The longest that an array of the managed runtime can be.
pub const MAX_ARRAY_LENGTH: usize = 0x7fff_ffff;

/// The length of the array that holds a slice of `len` items; an error for
/// a slice that is longer than an array can be.
pub fn array_length<T>(len: usize) -> (r: Result<i32, Error<T>>)
    ensures
        match r {
            Ok(n) => len <= MAX_ARRAY_LENGTH && n == len,
            Err(e) => len > MAX_ARRAY_LENGTH && e == Error::<T>::SliceTooLong(len),
        },
{
    if len <= MAX_ARRAY_LENGTH {
        Ok(len as i32)
    } else {
        Err(Error::SliceTooLong(len))
    }
}

/// The words that say that an array could not be allocated.
pub open spec fn allocation_failed_text(element: Seq<char>, len: int) -> Seq<char> {
    "failed to allocate `"@ + element + "["@ + signed_decimal(len) + "]`"@
}

/// The error for an array of `len` items of the named type that the
/// managed runtime did not allocate, where it threw nothing.
pub fn allocation_failed<T>(element: &str, len: i32) -> (e: Error<T>)
    ensures
        e matches Error::JvmInternal(message) && message@ == allocation_failed_text(
            element@,
            len as int,
        ),
{
    let mut message = String::from_str("failed to allocate `");
    message.append(element);
    message.append("[");
    push_signed_decimal(&mut message, len as i64);
    message.append("]`");
    Error::JvmInternal(message)
}

} // verus!
