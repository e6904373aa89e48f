//! A bridge that lets native values stand behind interfaces of a managed,
//! garbage-collected object runtime.
//!
//! The library holds the parts of the bridge that can be stated exactly:
//!
//! - `class_info`: descriptions of managed classes and the descriptors of
//!   their types and methods;
//! - `classfile`: a byte-level writer of class files;
//! - `shim`: the synthesis of shim classes, which implement a managed
//!   interface and forward every method to native code;
//! - `linkage`: the table that links the native methods of a class to
//!   native code;
//! - `class_definition`: the registration of classes with the managed
//!   runtime, once for each class;
//! - `shim_class`: the protocol that moves the lifetime of a native value
//!   into a managed object and back;
//! - `native`: the way back from native code into the managed runtime;
//! - `jvm`, `global`, `array`, `java`, `raw`, `error`: entries into the
//!   managed runtime, the two flavors of reference to managed objects, and
//!   what can go wrong;
//! - `files`, `java_compiler`: what the build step reads in source files and
//!   works out about the files of a class;
//! - `text`, `cell`: texts and write-once cells that the rest builds on.
//!
//! The calls into the managed runtime itself are not made here: the library
//! says what is to be done and takes what came of it.

pub mod text;
pub mod cell;
pub mod raw;
pub mod error;
pub mod class_info;
pub mod classfile;
pub mod linkage;
pub mod shim;
pub mod shim_class;
pub mod jvm;
pub mod java;
pub mod global;
pub mod array;
pub mod class_definition;
pub mod native;
pub mod files;
pub mod java_compiler;
