//! The classes of the managed runtime that the bridge itself speaks of.

use crate::jvm::{JavaObject, JavaType};
use vstd::prelude::*;
use vstd::string::*;

verus! {

/// The class of classes, `java.lang.Class`.
pub struct Class {}

/// The root class, `java.lang.Object`.
pub struct Object {}

/// The class of everything that can be thrown, `java.lang.Throwable`.
pub struct Throwable {}

impl JavaType for Class {
    open spec fn array_class_spec() -> Seq<char> {
        "[Ljava/lang/Class;"@
    }

    fn array_class() -> (name: String) {
        String::from_str("[Ljava/lang/Class;")
    }
}

impl JavaObject for Class {
    open spec fn class_spec() -> Seq<char> {
        "java/lang/Class"@
    }

    fn class() -> (name: String) {
        String::from_str("java/lang/Class")
    }
}

impl JavaType for Object {
    open spec fn array_class_spec() -> Seq<char> {
        "[Ljava/lang/Object;"@
    }

    fn array_class() -> (name: String) {
        String::from_str("[Ljava/lang/Object;")
    }
}

impl JavaObject for Object {
    open spec fn class_spec() -> Seq<char> {
        "java/lang/Object"@
    }

    fn class() -> (name: String) {
        String::from_str("java/lang/Object")
    }
}

impl JavaType for Throwable {
    open spec fn array_class_spec() -> Seq<char> {
        "[Ljava/lang/Throwable;"@
    }

    fn array_class() -> (name: String) {
        String::from_str("[Ljava/lang/Throwable;")
    }
}

impl JavaObject for Throwable {
    open spec fn class_spec() -> Seq<char> {
        "java/lang/Throwable"@
    }

    fn class() -> (name: String) {
        String::from_str("java/lang/Throwable")
    }
}

} // verus!
