//! The registration of classes with the managed runtime: each class is
//! resolved once, and so is its constructor, however many native values are
//! wrapped through it. A class counts as registered only when its native
//! methods have been linked to native code.

use crate::cell::{cell_contents, cell_get, cell_new, cell_try_insert};
use crate::error::Error;
use crate::java::Class;
use crate::jvm::{Global, Jvm, Local};
use crate::linkage::{linkage_complete, linkage_matches, JavaFunction, NativeMethod};
use crate::raw::{MethodPtr, ObjectPtr};
use crate::shim_class::{transfer, RawArc, TransferAction, TransferEvent, TransferState};
use once_cell::sync::OnceCell;
use vstd::prelude::*;
use vstd::string::*;

verus! {

/// Where the class of a definition comes from.
#[derive(Debug)]
pub enum ClassDefinitionData {
    /// The class exists already; the managed runtime finds it by name.
    External { jni_class_name: String },
    /// The class is defined afresh from the bytes given here.
    Const { jni_class_name: String, bytecode: Vec<i8> },
}

/// What the source of a class is, in mathematical terms.
pub enum ClassSource {
    External { jni_class_name: Seq<char> },
    Const { jni_class_name: Seq<char>, bytecode: Seq<i8> },
}

impl View for ClassDefinitionData {
    type V = ClassSource;

    open spec fn view(&self) -> ClassSource {
        match *self {
            ClassDefinitionData::External { jni_class_name } => ClassSource::External {
                jni_class_name: jni_class_name@,
            },
            ClassDefinitionData::Const { jni_class_name, bytecode } => ClassSource::Const {
                jni_class_name: jni_class_name@,
                bytecode: bytecode@,
            },
        }
    }
}

/// A class of the managed runtime as native code knows it: a name for
/// people, where the class comes from, the native methods that the class
/// declares and the native functions that are supplied for them, and two
/// cells that are written at most once, for the class as the runtime
/// resolved it and for its constructor.
pub struct ClassDefinition {
    human_class_name: String,
    class: OnceCell<u64>,
    constructor: OnceCell<u64>,
    data: ClassDefinitionData,
    native_methods: Vec<NativeMethod>,
    java_functions: Vec<JavaFunction>,
}

/// A class that the managed runtime has resolved and whose native methods
/// are now to be linked to the functions that are supplied for them. Only
/// `ClassDefinition::class_found` makes one, once it has seen that the
/// functions are those that the class declares.
pub struct Linking<'a> {
    class: ObjectPtr,
    functions: &'a Vec<JavaFunction>,
}

impl<'a> Linking<'a> {
    /// The class whose native methods are to be linked.
    pub closed spec fn class_of(&self) -> ObjectPtr {
        self.class
    }

    /// The functions that are to be linked.
    pub closed spec fn functions_of(&self) -> Seq<JavaFunction> {
        self.functions@
    }

    /// The class whose native methods are to be linked.
    pub fn class(&self) -> (class: ObjectPtr)
        ensures
            class == self.class_of(),
    {
        self.class
    }

    /// The functions that are to be linked.
    pub fn functions(&self) -> (functions: &'a Vec<JavaFunction>)
        ensures
            functions@ == self.functions_of(),
    {
        self.functions
    }
}

/// What has to be done for a class to be registered.
pub enum Registration<'a> {
    /// The class is registered; here it is.
    Registered(Global<Class>),
    /// The managed runtime is to find the class by this name.
    Find { jni_class_name: &'a str },
    /// The managed runtime is to define the class, under this name, from
    /// these bytes.
    Define { jni_class_name: &'a str, bytecode: &'a Vec<i8> },
}

/// A class that was resolved, and the handle that resolving it anew
/// produced in vain, if another caller had registered the class first.
pub struct Resolved {
    pub class: Global<Class>,
    pub redundant: Option<ObjectPtr>,
}

/// A class that could not be registered, or whose constructor could not
/// be found: the name of the class for people, and what went wrong. Such a
/// failure comes from how the class was made, so trying again does not
/// help.
pub struct RegistrationError<T> {
    pub class: String,
    pub error: Error<T>,
}

/// What has to be done for the constructor of a class to be known.
pub enum ConstructorLookup {
    /// The constructor is known; here it is.
    Found(MethodPtr),
    /// The managed runtime is to find the constructor of the class that has
    /// this descriptor. The class is the one that is registered.
    Find { class: ObjectPtr, descriptor: &'static str },
    /// The class is not registered yet, so its constructor cannot be
    /// looked up: the class has to be registered first.
    Unregistered,
}

/// A transfer that was aborted: why, and the unit of the count that the
/// caller has to release, since no managed object took it over.
pub struct Aborted<T> {
    pub error: Error<T>,
    pub release: RawArc,
}

/// The descriptor of the constructor of every shim class: it takes the
/// handle, a wide integer, and returns nothing.
pub open spec fn constructor_descriptor() -> Seq<char> {
    "(J)V"@
}

/// The words that say that the native functions supplied for a class are
/// not those that the class declares.
pub open spec fn linkage_failed_text(human_class_name: Seq<char>) -> Seq<char> {
    "the native functions supplied for class `"@ + human_class_name
        + "` are not those that it declares"@
}

/// The words that say that the constructor of a class gave no object.
pub open spec fn constructor_failed_text(human_class_name: Seq<char>) -> Seq<char> {
    "constructor failed creating class `"@ + human_class_name + "`"@
}

/// What an attempt to construct a shim means for the transfer: the
/// constructor succeeded if it gave an object, and failed if it gave none
/// or threw.
pub open spec fn construction_event<T>(constructed: Result<Option<ObjectPtr>, Error<T>>) -> TransferEvent {
    match constructed {
        Ok(Some(_)) => TransferEvent::Constructed,
        _ => TransferEvent::ConstructionFailed,
    }
}

impl ClassDefinition {
    /// The name of the class for people.
    pub closed spec fn human_name(&self) -> Seq<char> {
        self.human_class_name@
    }

    /// Where the class comes from.
    pub closed spec fn source(&self) -> ClassSource {
        self.data@
    }

    /// The native methods that the class declares.
    pub closed spec fn declared_natives(&self) -> Seq<NativeMethod> {
        self.native_methods@
    }

    /// The native functions that are supplied for the class.
    pub closed spec fn supplied_functions(&self) -> Seq<JavaFunction> {
        self.java_functions@
    }

    /// The handle under which the class is registered, once it is: no
    /// handle, or one. It is the same for every caller and never changes.
    pub closed spec fn registered(&self) -> Seq<u64> {
        cell_contents(self.class)
    }

    /// The handle of the constructor, once it is known: no handle, or one.
    pub closed spec fn constructor_found(&self) -> Seq<u64> {
        cell_contents(self.constructor)
    }

    /// The definition of a class that is defined afresh from `bytecode`.
    pub fn new(human_class_name: &str, jni_class_name: &str, bytecode: Vec<i8>) -> (definition:
        ClassDefinition)
        ensures
            definition.human_name() == human_class_name@,
            definition.source() == (ClassSource::Const {
                jni_class_name: jni_class_name@,
                bytecode: bytecode@,
            }),
            definition.declared_natives().len() == 0,
            definition.supplied_functions().len() == 0,
    {
        ClassDefinition {
            human_class_name: String::from_str(human_class_name),
            constructor: cell_new(),
            class: cell_new(),
            data: ClassDefinitionData::Const {
                jni_class_name: String::from_str(jni_class_name),
                bytecode,
            },
            native_methods: Vec::new(),
            java_functions: Vec::new(),
        }
    }

    /// The definition of a class that exists already.
    pub fn new_external(human_class_name: &str, jni_class_name: &str) -> (definition:
        ClassDefinition)
        ensures
            definition.human_name() == human_class_name@,
            definition.source() == (ClassSource::External { jni_class_name: jni_class_name@ }),
            definition.declared_natives().len() == 0,
            definition.supplied_functions().len() == 0,
    {
        ClassDefinition {
            human_class_name: String::from_str(human_class_name),
            constructor: cell_new(),
            class: cell_new(),
            data: ClassDefinitionData::External {
                jni_class_name: String::from_str(jni_class_name),
            },
            native_methods: Vec::new(),
            java_functions: Vec::new(),
        }
    }

    /// This definition with the native methods that its class declares and
    /// the native functions that are supplied for them.
    pub fn with_native_methods(
        self,
        declared: Vec<NativeMethod>,
        supplied: Vec<JavaFunction>,
    ) -> (definition: ClassDefinition)
        ensures
            definition.human_name() == self.human_name(),
            definition.source() == self.source(),
            definition.registered() == self.registered(),
            definition.constructor_found() == self.constructor_found(),
            definition.declared_natives() == declared@,
            definition.supplied_functions() == supplied@,
    {
        let ClassDefinition {
            human_class_name,
            class,
            constructor,
            data,
            native_methods: _,
            java_functions: _,
        } = self;
        ClassDefinition {
            human_class_name,
            class,
            constructor,
            data,
            native_methods: declared,
            java_functions: supplied,
        }
    }

    /// The native functions that are supplied for the class.
    pub fn java_functions(&self) -> (functions: &Vec<JavaFunction>)
        ensures
            functions@ == self.supplied_functions(),
    {
        &self.java_functions
    }

    /// The name of the class for people.
    pub fn human_class_name(&self) -> (name: &str)
        ensures
            name@ == self.human_name(),
    {
        self.human_class_name.as_str()
    }

    /// What has to be done for the class to be registered, given what its
    /// cell was found to hold: nothing, if it holds a class; else to find
    /// or to define the class, as the definition says.
    pub fn registration(&self, cached: Option<u64>) -> (registration: Registration<'_>)
        ensures
            match cached {
                Some(handle) => registration matches Registration::Registered(class)
                    && class.object().address() == handle,
                None => match self.source() {
                    ClassSource::External { jni_class_name } => registration
                        matches Registration::Find { jni_class_name: name } && name@
                        == jni_class_name,
                    ClassSource::Const { jni_class_name, bytecode } => registration
                        matches Registration::Define { jni_class_name: name, bytecode: bytes }
                        && name@ == jni_class_name && bytes@ == bytecode,
                },
            },
    {
        match cached {
            Some(handle) => Registration::Registered(Global::from_raw(ObjectPtr::kept(handle))),
            None => match &self.data {
                ClassDefinitionData::External { jni_class_name } => Registration::Find {
                    jni_class_name: jni_class_name.as_str(),
                },
                ClassDefinitionData::Const { jni_class_name, bytecode } => Registration::Define {
                    jni_class_name: jni_class_name.as_str(),
                    bytecode,
                },
            },
        }
    }

    /// The class, if it is registered; else what the managed runtime has to
    /// do to resolve it. The outcome of that goes to `class_found`.
    pub fn register(&self) -> (registration: Registration<'_>)
        ensures
            match registration {
                Registration::Registered(class) => self.registered() == seq![
                    class.object().address(),
                ],
                Registration::Find { jni_class_name } => self.source() == (ClassSource::External {
                    jni_class_name: jni_class_name@,
                }),
                Registration::Define { jni_class_name, bytecode } => self.source()
                    == (ClassSource::Const {
                    jni_class_name: jni_class_name@,
                    bytecode: bytecode@,
                }),
            },
    {
        self.registration(cell_get(&self.class))
    }

    /// Takes the outcome of resolving the class, and says what is to be
    /// linked before the class can be registered. A failure to resolve is
    /// handed on under the name of the class. A class that was resolved is
    /// to be linked to the functions that are supplied for it, if they are
    /// exactly those that it declares; if they are not, registration fails
    /// under the name of the class, and nothing is linked.
    pub fn class_found<T>(&self, outcome: Result<ObjectPtr, Error<T>>) -> (result: Result<
        Linking<'_>,
        RegistrationError<T>,
    >)
        ensures
            match outcome {
                Ok(handle) => if linkage_complete(
                    self.declared_natives(),
                    self.supplied_functions(),
                ) {
                    result matches Ok(linking) && linking.class_of() == handle
                        && linking.functions_of() == self.supplied_functions()
                } else {
                    result matches Err(failed) && failed.class@ == self.human_name() && (
                    failed.error matches Error::JvmInternal(message) && message@
                        == linkage_failed_text(self.human_name()))
                },
                Err(e) => result matches Err(failed) && failed.error == e && failed.class@
                    == self.human_name(),
            },
    {
        match outcome {
            Ok(handle) => {
                if linkage_matches(&self.native_methods, &self.java_functions) {
                    Ok(Linking { class: handle, functions: &self.java_functions })
                } else {
                    let mut message = String::from_str("the native functions supplied for class `");
                    message.append(self.human_class_name.as_str());
                    message.append("` are not those that it declares");
                    Err(
                        RegistrationError {
                            class: self.human_class_name.clone(),
                            error: Error::JvmInternal(message),
                        },
                    )
                }
            },
            Err(e) => Err(RegistrationError { class: self.human_class_name.clone(), error: e }),
        }
    }

    /// What a caller gets who resolved the class under `handle`, given the
    /// handle that the cell holds after the caller tried to write its own:
    /// the class that the cell holds, and the caller's own handle as
    /// redundant if it is another than the one that the cell holds.
    pub fn resolution(handle: ObjectPtr, held: u64) -> (resolved: Resolved)
        ensures
            resolved.class.object().address() == held,
            resolved.redundant == if held == handle.address() {
                None
            } else {
                Some(handle)
            },
    {
        let class = Global::from_raw(ObjectPtr::kept(held));
        if held == handle.as_u64() {
            Resolved { class, redundant: None }
        } else {
            Resolved { class, redundant: Some(handle) }
        }
    }

    /// Takes the outcome of linking the native methods of a class that was
    /// resolved, and registers the class. A failure to link is handed on
    /// under the name of the class and leaves the class unregistered. A
    /// class that was linked is registered unless one is registered
    /// already: the first to finish wins, and whoever comes later gets the
    /// class of the winner, with its own handle marked as redundant.
    pub fn class_resolved<T>(&self, linking: Linking<'_>, linked: Result<(), Error<T>>) -> (result:
        Result<Resolved, RegistrationError<T>>)
        ensures
            match linked {
                Ok(()) => result matches Ok(resolved) && self.registered() == seq![
                    resolved.class.object().address(),
                ] && (resolved.redundant is None <==> resolved.class.object().address()
                    == linking.class_of().address()) && (resolved.redundant matches Some(discard)
                    ==> discard == linking.class_of()),
                Err(e) => result matches Err(failed) && failed.error == e && failed.class@
                    == self.human_name(),
            },
    {
        match linked {
            Ok(()) => {
                let handle = linking.class;
                let (held, _) = cell_try_insert(&self.class, handle.as_u64());
                Ok(ClassDefinition::resolution(handle, held))
            },
            Err(e) => Err(RegistrationError { class: self.human_class_name.clone(), error: e }),
        }
    }

    /// What has to be done for the constructor to be known, given what the
    /// cells of the constructor and of the class were found to hold:
    /// nothing, if the constructor is known; else to find the constructor
    /// of the class that is registered, by its descriptor; and where no
    /// class is registered, to register the class first.
    pub fn constructor_lookup(class: Option<u64>, cached: Option<u64>) -> (lookup: ConstructorLookup)
        ensures
            match cached {
                Some(handle) => lookup matches ConstructorLookup::Found(method) && method.address()
                    == handle,
                None => match class {
                    Some(registered) => lookup matches ConstructorLookup::Find {
                        class: of,
                        descriptor,
                    } && of.address() == registered && descriptor@ == constructor_descriptor(),
                    None => lookup is Unregistered,
                },
            },
    {
        match cached {
            Some(handle) => ConstructorLookup::Found(MethodPtr::kept(handle)),
            None => match class {
                Some(registered) => ConstructorLookup::Find {
                    class: ObjectPtr::kept(registered),
                    descriptor: "(J)V",
                },
                None => ConstructorLookup::Unregistered,
            },
        }
    }

    /// The constructor of the class, if it is known; else what the managed
    /// runtime has to do to find it. The constructor is looked up on the
    /// class that is registered, so the class has to be registered first.
    /// The outcome of the lookup goes to `constructor_resolved`.
    pub fn constructor(&self) -> (lookup: ConstructorLookup)
        ensures
            match lookup {
                ConstructorLookup::Found(method) => self.constructor_found() == seq![
                    method.address(),
                ],
                ConstructorLookup::Find { class, descriptor } => self.registered() == seq![
                    class.address(),
                ] && descriptor@ == constructor_descriptor(),
                ConstructorLookup::Unregistered => true,
            },
    {
        let cached = cell_get(&self.constructor);
        let class = cell_get(&self.class);
        ClassDefinition::constructor_lookup(class, cached)
    }

    /// Takes the outcome of finding the constructor. A failure is handed on
    /// under the name of the class and leaves the constructor unknown. Of
    /// several constructors that were found, the first is kept and given
    /// to everyone.
    pub fn constructor_resolved<T>(&self, outcome: Result<MethodPtr, Error<T>>) -> (result: Result<
        MethodPtr,
        RegistrationError<T>,
    >)
        ensures
            match outcome {
                Ok(handle) => result matches Ok(method) && self.constructor_found() == seq![
                    method.address(),
                ],
                Err(e) => result matches Err(failed) && failed.error == e && failed.class@
                    == self.human_name(),
            },
    {
        match outcome {
            Ok(handle) => {
                let (held, _) = cell_try_insert(&self.constructor, handle.as_u64());
                Ok(MethodPtr::kept(held))
            },
            Err(e) => Err(RegistrationError { class: self.human_class_name.clone(), error: e }),
        }
    }

    /// Ends the wrapping of a native value as an instance of this class,
    /// given the unit of its count that was encoded for the constructor and
    /// what the constructor gave.
    ///
    /// If the constructor gave an object, the managed object owns the unit
    /// from now on, and the result is a call-scoped reference to the object.
    /// Otherwise the transfer is aborted and the unit comes back to be
    /// released: with the error that was thrown, or, where the constructor
    /// gave nothing and threw nothing, with an error of the runtime itself
    /// that names the class.
    pub fn instantiate_shim_for<'jvm, J, T>(
        &self,
        jvm: &mut Jvm<'jvm>,
        arc: RawArc,
        constructed: Result<Option<ObjectPtr>, Error<T>>,
    ) -> (result: Result<Local<'jvm, J>, Aborted<T>>)
        ensures
            *final(jvm) == *old(jvm),
            match constructed {
                Ok(Some(object)) => result matches Ok(local) && local.object() == object
                    && local.env() == old(jvm).env(),
                Ok(None) => result matches Err(aborted) && aborted.release == arc && (
                aborted.error matches Error::JvmInternal(message) && message@
                    == constructor_failed_text(self.human_name())),
                Err(e) => result matches Err(aborted) && aborted.release == arc && aborted.error
                    == e,
            },
            transfer(
                TransferState::Allocated { handle: crate::shim_class::encode_handle(arc.address()) },
                construction_event(constructed),
            ).1 == (match result {
                Ok(_) => TransferAction::Keep,
                Err(aborted) => TransferAction::Release { address: aborted.release.address() },
            }),
    {
        proof {
            crate::shim_class::lemma_handle_round_trip(arc.address(), 0);
        }
        match constructed {
            Ok(Some(object)) => {
                let _ = arc.into_raw();
                Ok(jvm.adopt(object))
            },
            Ok(None) => {
                let mut message = String::from_str("constructor failed creating class `");
                message.append(self.human_class_name.as_str());
                message.append("`");
                Err(Aborted { error: Error::JvmInternal(message), release: arc })
            },
            Err(e) => Err(Aborted { error: e, release: arc }),
        }
    }
}

/// Registration converges: whatever classes a definition has given out, to
/// whichever callers and in whatever order, they are one and the same
/// class. The same holds of its constructor.
pub proof fn lemma_registration_converges(
    definition: ClassDefinition,
    first: Global<Class>,
    second: Global<Class>,
    first_constructor: MethodPtr,
    second_constructor: MethodPtr,
)
    ensures
        definition.registered() == seq![first.object().address()] && definition.registered()
            == seq![second.object().address()] ==> first.object().address()
            == second.object().address(),
        definition.constructor_found() == seq![first_constructor.address()]
            && definition.constructor_found() == seq![second_constructor.address()]
            ==> first_constructor.address() == second_constructor.address(),
{
    if definition.registered() == seq![first.object().address()] && definition.registered()
        == seq![second.object().address()] {
        assert(seq![first.object().address()][0] == seq![second.object().address()][0]);
    }
    if definition.constructor_found() == seq![first_constructor.address()]
        && definition.constructor_found() == seq![second_constructor.address()] {
        assert(seq![first_constructor.address()][0] == seq![second_constructor.address()][0]);
    }
}

} // verus!
