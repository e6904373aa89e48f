//! Handles of the managed runtime, as plain numbers.

use vstd::prelude::*;

verus! {

/// The handle of a managed object.
#[derive(Clone, Copy, Debug, PartialEq, Eq, Structural)]
pub struct ObjectPtr {
    address: u64,
}

impl ObjectPtr {
    /// The number that the runtime knows the object by.
    pub closed spec fn address(&self) -> u64 {
        self.address
    }

    /// The handle with the given number, as it was read back from where
    /// the library keeps handles.
    pub(crate) fn kept(address: u64) -> (ptr: ObjectPtr)
        ensures
            ptr.address() == address,
    {
        ObjectPtr { address }
    }

    /// The handle with the given number; none for the null handle.
    pub fn new(address: u64) -> (ptr: Option<ObjectPtr>)
        ensures
            address == 0 <==> ptr is None,
            ptr matches Some(p) ==> p.address() == address,
    {
        if address == 0 {
            None
        } else {
            Some(ObjectPtr { address })
        }
    }

    /// The number of this handle.
    pub fn as_u64(&self) -> (address: u64)
        ensures
            address == self.address(),
    {
        self.address
    }
}

/// The handle of a method of a managed class.
#[derive(Clone, Copy, Debug, PartialEq, Eq, Structural)]
pub struct MethodPtr {
    address: u64,
}

impl MethodPtr {
    /// The number that the runtime knows the method by.
    pub closed spec fn address(&self) -> u64 {
        self.address
    }

    /// The handle with the given number, as it was read back from where
    /// the library keeps handles.
    pub(crate) fn kept(address: u64) -> (ptr: MethodPtr)
        ensures
            ptr.address() == address,
    {
        MethodPtr { address }
    }

    /// The handle with the given number; none for the null handle.
    pub fn new(address: u64) -> (ptr: Option<MethodPtr>)
        ensures
            address == 0 <==> ptr is None,
            ptr matches Some(p) ==> p.address() == address,
    {
        if address == 0 {
            None
        } else {
            Some(MethodPtr { address })
        }
    }

    /// The number of this handle.
    pub fn as_u64(&self) -> (address: u64)
        ensures
            address == self.address(),
    {
        self.address
    }
}

/// The handle of a managed runtime that was launched.
#[derive(Clone, Copy, Debug, PartialEq, Eq, Structural)]
pub struct JvmPtr {
    address: u64,
}

impl JvmPtr {
    /// The number that the runtime is known by.
    pub closed spec fn address(&self) -> u64 {
        self.address
    }

    /// The handle with the given number, as it was read back from where
    /// the library keeps handles.
    pub(crate) fn kept(address: u64) -> (ptr: JvmPtr)
        ensures
            ptr.address() == address,
    {
        JvmPtr { address }
    }

    /// The handle with the given number; none for the null handle.
    pub fn new(address: u64) -> (ptr: Option<JvmPtr>)
        ensures
            address == 0 <==> ptr is None,
            ptr matches Some(p) ==> p.address() == address,
    {
        if address == 0 {
            None
        } else {
            Some(JvmPtr { address })
        }
    }

    /// The number of this handle.
    pub fn as_u64(&self) -> (address: u64)
        ensures
            address == self.address(),
    {
        self.address
    }
}

/// One entry of a native thread into the managed runtime, by its number.
#[derive(Clone, Copy, Debug, PartialEq, Eq, Structural)]
pub struct EnvPtr {
    pub address: u64,
}

} // verus!
