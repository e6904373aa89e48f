//! The table that links the native methods of a class to native code.

use vstd::prelude::*;
use vstd::string::*;

verus! {

/// A native method as a class declares it.
#[derive(Debug)]
pub struct NativeMethod {
    pub name: String,
    pub descriptor: String,
}

/// A native function as it is supplied to the managed runtime: the name
/// and descriptor of the method that it implements, and where it stands.
#[derive(Debug)]
pub struct JavaFunction {
    pub name: String,
    pub descriptor: String,
    pub pointer: u64,
}

/// Whether a function implements a method: they agree in name and
/// descriptor.
pub open spec fn implements(function: JavaFunction, method: NativeMethod) -> bool {
    function.name@ == method.name@ && function.descriptor@ == method.descriptor@
}

/// Whether one of the functions implements the method.
pub open spec fn is_supplied(supplied: Seq<JavaFunction>, method: NativeMethod) -> bool {
    exists|j: int| 0 <= j < supplied.len() && implements(#[trigger] supplied[j], method)
}

/// Whether the function implements one of the methods.
pub open spec fn is_declared(declared: Seq<NativeMethod>, function: JavaFunction) -> bool {
    exists|i: int| 0 <= i < declared.len() && implements(function, #[trigger] declared[i])
}

/// Whether the functions that are supplied are exactly those that the
/// class declares, by name and descriptor: each method has its function,
/// and each function its method.
pub open spec fn linkage_complete(declared: Seq<NativeMethod>, supplied: Seq<JavaFunction>) -> bool {
    &&& forall|i: int| 0 <= i < declared.len() ==> is_supplied(supplied, #[trigger] declared[i])
    &&& forall|j: int| 0 <= j < supplied.len() ==> is_declared(declared, #[trigger] supplied[j])
}

/// Whether a function implements a method.
fn matches(function: &JavaFunction, method: &NativeMethod) -> (b: bool)
    ensures
        b == implements(*function, *method),
{
    function.name == method.name && function.descriptor == method.descriptor
}

/// Whether one of the functions implements the method.
pub fn supplies(supplied: &Vec<JavaFunction>, method: &NativeMethod) -> (b: bool)
    ensures
        b == is_supplied(supplied@, *method),
{
    let n = supplied.len();
    let mut j: usize = 0;
    while j < n
        invariant
            n == supplied@.len(),
            j <= n,
            forall|k: int| 0 <= k < j ==> !implements(#[trigger] supplied@[k], *method),
        decreases n - j,
    {
        if matches(&supplied[j], method) {
            return true;
        }
        j += 1;
    }
    false
}

/// Whether the function implements one of the methods.
pub fn declares(declared: &Vec<NativeMethod>, function: &JavaFunction) -> (b: bool)
    ensures
        b == is_declared(declared@, *function),
{
    let n = declared.len();
    let mut i: usize = 0;
    while i < n
        invariant
            n == declared@.len(),
            i <= n,
            forall|k: int| 0 <= k < i ==> !implements(*function, #[trigger] declared@[k]),
        decreases n - i,
    {
        if matches(function, &declared[i]) {
            return true;
        }
        i += 1;
    }
    false
}

/// Whether the functions that are supplied are exactly those that the
/// class declares. Where they are not, the class cannot be resolved.
pub fn linkage_matches(declared: &Vec<NativeMethod>, supplied: &Vec<JavaFunction>) -> (b: bool)
    ensures
        b == linkage_complete(declared@, supplied@),
{
    let n = declared.len();
    let mut i: usize = 0;
    while i < n
        invariant
            n == declared@.len(),
            i <= n,
            forall|k: int| 0 <= k < i ==> is_supplied(supplied@, #[trigger] declared@[k]),
        decreases n - i,
    {
        if !supplies(supplied, &declared[i]) {
            return false;
        }
        i += 1;
    }
    let m = supplied.len();
    let mut j: usize = 0;
    while j < m
        invariant
            m == supplied@.len(),
            j <= m,
            forall|k: int| 0 <= k < declared@.len() ==> is_supplied(supplied@, #[trigger] declared@[k]),
            forall|k: int| 0 <= k < j ==> is_declared(declared@, #[trigger] supplied@[k]),
        decreases m - j,
    {
        if !declares(declared, &supplied[j]) {
            return false;
        }
        j += 1;
    }
    true
}

} // verus!
