//! Entries into the managed runtime, the two flavors of reference to
//! managed objects, and the traits that describe managed types.

use crate::cell::{cell_contents, cell_get, cell_new, cell_try_insert};
use crate::error::Error;
use crate::raw::{EnvPtr, JvmPtr, ObjectPtr};
use once_cell::sync::OnceCell;
use std::marker::PhantomData;
use vstd::prelude::*;
use vstd::string::*;

verus! {

/// A reference to a managed object that is valid only during the entry
/// into the managed runtime that produced it.
pub struct Local<'jvm, T> {
    env: EnvPtr,
    object: ObjectPtr,
    marker: PhantomData<&'jvm T>,
}

/// A reference to a managed object that is valid until it is released.
pub struct Global<T> {
    object: ObjectPtr,
    marker: PhantomData<T>,
}

/// Another name for an independent reference.
pub type Java<T> = Global<T>;

impl<'jvm, T> Local<'jvm, T> {
    /// The entry that this reference belongs to.
    pub closed spec fn env(&self) -> EnvPtr {
        self.env
    }

    /// The object that this reference points to.
    pub closed spec fn object(&self) -> ObjectPtr {
        self.object
    }

    /// The entry that this reference belongs to.
    pub fn entry(&self) -> (env: EnvPtr)
        ensures
            env == self.env(),
    {
        self.env
    }
}

impl<T> Global<T> {
    /// The object that this reference points to.
    pub closed spec fn object(&self) -> ObjectPtr {
        self.object
    }

    /// The independent reference to the object with the given handle.
    pub fn from_raw(object: ObjectPtr) -> (global: Global<T>)
        ensures
            global.object() == object,
    {
        Global { object, marker: PhantomData }
    }

    /// Ends this reference. This is the one thing that can happen to an
    /// independent reference; what is left is the handle that the runtime
    /// is to delete.
    pub fn release(self) -> (object: ObjectPtr)
        ensures
            object == self.object(),
    {
        self.object
    }
}

/// What the two flavors of reference have in common: the object that they
/// point to. Reading it changes neither the flavor nor the lifetime of a
/// reference.
pub trait JavaObjectExt: Sized {
    /// The type of the object.
    type Object;

    /// The object that the reference points to.
    spec fn referent(&self) -> ObjectPtr;

    /// The handle of the object that the reference points to.
    fn as_raw(&self) -> (ptr: ObjectPtr)
        ensures
            ptr == self.referent(),
    ;
}

impl<'jvm, T> JavaObjectExt for Local<'jvm, T> {
    type Object = T;

    open spec fn referent(&self) -> ObjectPtr {
        self.object()
    }

    fn as_raw(&self) -> (ptr: ObjectPtr) {
        self.object
    }
}

impl<T> JavaObjectExt for Global<T> {
    type Object = T;

    open spec fn referent(&self) -> ObjectPtr {
        self.object()
    }

    fn as_raw(&self) -> (ptr: ObjectPtr) {
        self.object
    }
}

/// One entry of a native thread into the managed runtime. Call-scoped
/// references are made in an entry and cannot outlive it.
pub struct Jvm<'jvm> {
    env: EnvPtr,
    marker: PhantomData<&'jvm ()>,
}

impl<'jvm> Jvm<'jvm> {
    /// The number of this entry.
    pub closed spec fn env(&self) -> EnvPtr {
        self.env
    }

    /// The entry with the given number.
    pub fn enter(env: EnvPtr) -> (jvm: Jvm<'jvm>)
        ensures
            jvm.env() == env,
    {
        Jvm { env, marker: PhantomData }
    }

    /// The number of this entry.
    pub fn entry(&self) -> (env: EnvPtr)
        ensures
            env == self.env(),
    {
        self.env
    }

    /// A builder for launching the managed runtime. It starts with the
    /// option that checks native calls, where that is asked for, and with
    /// the class path, where one is given.
    pub fn builder(check_jni: bool, classpath: Option<String>) -> (builder: JvmBuilder)
        ensures
            builder.options() == default_options(check_jni, option_view(classpath)),
            builder.libjvm_path() is None,
    {
        JvmBuilder::new(check_jni, classpath)
    }

    /// What has to be done to attach the calling thread to the managed
    /// runtime for good: attach it to the runtime that is recorded, or
    /// launch one first.
    pub fn attach_thread_permanently(
        global: &GlobalJvm,
        check_jni: bool,
        classpath: Option<String>,
    ) -> (attach: Attach)
        ensures
            match attach {
                Attach::Thread(jvm) => global.launched() == seq![jvm.address()],
                Attach::LaunchFirst(launch) => launch.use_existing && launch.libjvm_path is None
                    && texts_view(launch.options@) == default_options(
                    check_jni,
                    option_view(classpath),
                ),
            },
    {
        match get_or_default_init_jvm(global, check_jni, classpath) {
            Ok(jvm) => Attach::Thread(jvm),
            Err(launch) => Attach::LaunchFirst(launch),
        }
    }

    /// A call-scoped reference, valid in this entry, to the object with the
    /// given handle: one that the managed runtime handed out during this
    /// entry. Call-scoped references are made here and nowhere else, so
    /// that none outlives its entry.
    pub fn adopt<T>(&mut self, object: ObjectPtr) -> (local: Local<'jvm, T>)
        ensures
            local.object() == object,
            local.env() == old(self).env(),
            *final(self) == *old(self),
    {
        Local { env: self.env, object, marker: PhantomData }
    }

    /// A call-scoped reference, valid in this entry, to the object that `r`
    /// points to.
    pub fn local<R: JavaObjectExt>(&mut self, r: &R) -> (local: Local<'jvm, R::Object>)
        ensures
            local.object() == r.referent(),
            local.env() == old(self).env(),
            *final(self) == *old(self),
    {
        Local { env: self.env, object: r.as_raw(), marker: PhantomData }
    }

    /// An independent reference to the object that `r` points to, under
    /// the handle `promoted`: the one that the managed runtime handed out
    /// when it was asked, during this entry, for an independent reference
    /// to that object. This is the one way from a call-scoped reference to
    /// one that can be kept: it needs the entry, and it leaves `r` as it
    /// was.
    pub fn global<R: JavaObjectExt>(&mut self, r: &R, promoted: ObjectPtr) -> (global: Global<
        R::Object,
    >)
        ensures
            global.object() == promoted,
            *final(self) == *old(self),
    {
        Global { object: promoted, marker: PhantomData }
    }
}

/// The view of an optional text.
pub open spec fn option_view(text: Option<String>) -> Option<Seq<char>> {
    match text {
        Some(t) => Some(t@),
        None => None,
    }
}

/// The views of a list of texts, in order.
pub open spec fn texts_view(texts: Seq<String>) -> Seq<Seq<char>> {
    Seq::new(texts.len(), |i: int| texts[i]@)
}

/// The option that sets the class path.
pub open spec fn classpath_option(classpath: Seq<char>) -> Seq<char> {
    "-Djava.class.path="@ + classpath
}

/// The options that a builder starts with.
pub open spec fn default_options(check_jni: bool, classpath: Option<Seq<char>>) -> Seq<Seq<char>> {
    let checks = if check_jni {
        seq!["-Xcheck:jni"@]
    } else {
        Seq::empty()
    };
    match classpath {
        Some(c) => checks.push(classpath_option(c)),
        None => checks,
    }
}

/// The options with which the managed runtime is launched.
pub struct JvmBuilder {
    options: Vec<String>,
    libjvm_path: Option<String>,
}

/// What has to be done to launch the managed runtime.
pub struct Launch {
    /// Where to load the runtime's library from, if it has to be loaded.
    pub libjvm_path: Option<String>,
    /// The options to create the runtime with, in order.
    pub options: Vec<String>,
    /// Whether a runtime that exists already is to be used.
    pub use_existing: bool,
}

/// What follows an attempt to create or find the managed runtime.
pub enum LaunchStep<T> {
    /// The runtime is there: record it.
    Record(JvmPtr),
    /// A runtime exists already: ask for it.
    FindExisting,
    /// The launch failed.
    Fail(Error<T>),
}

impl JvmBuilder {
    /// The options so far, in order.
    pub closed spec fn options(&self) -> Seq<Seq<char>> {
        texts_view(self.options@)
    }

    /// Where the runtime's library is loaded from, if that was set.
    pub closed spec fn libjvm_path(&self) -> Option<Seq<char>> {
        option_view(self.libjvm_path)
    }

    /// A builder with the options that it starts with.
    fn new(check_jni: bool, classpath: Option<String>) -> (builder: JvmBuilder)
        ensures
            builder.options() == default_options(check_jni, option_view(classpath)),
            builder.libjvm_path() is None,
    {
        let mut this = JvmBuilder { options: Vec::new(), libjvm_path: None };
        assert(this.options() =~= Seq::<Seq<char>>::empty());
        if check_jni {
            this = this.custom("-Xcheck:jni");
        }
        match classpath {
            Some(c) => {
                this = this.add_classpath(c.as_str());
            },
            None => {},
        }
        assert(this.options() =~= default_options(check_jni, option_view(classpath)));
        this
    }

    /// Adds the option that sets the class path.
    pub fn add_classpath(self, classpath: &str) -> (builder: JvmBuilder)
        ensures
            builder.options() == self.options().push(classpath_option(classpath@)),
            builder.libjvm_path() == self.libjvm_path(),
    {
        let mut option = String::from_str("-Djava.class.path=");
        option.append(classpath);
        self.custom(option.as_str())
    }

    /// Adds an option as it is given.
    pub fn custom(self, opt_string: &str) -> (builder: JvmBuilder)
        ensures
            builder.options() == self.options().push(opt_string@),
            builder.libjvm_path() == self.libjvm_path(),
    {
        let JvmBuilder { options, libjvm_path } = self;
        let mut options = options;
        let ghost before = options@;
        options.push(String::from_str(opt_string));
        let builder = JvmBuilder { options, libjvm_path };
        assert(builder.options() =~= texts_view(before).push(opt_string@));
        builder
    }

    /// Sets where the runtime's library is loaded from.
    pub fn load_libjvm_at(self, path: &str) -> (builder: JvmBuilder)
        ensures
            builder.options() == self.options(),
            builder.libjvm_path() == Some(path@),
    {
        let JvmBuilder { options, libjvm_path: _ } = self;
        JvmBuilder { options, libjvm_path: Some(String::from_str(path)) }
    }

    /// What has to be done to launch a new runtime; the launch fails if one
    /// exists already.
    pub fn try_launch(self) -> (launch: Launch)
        ensures
            texts_view(launch.options@) == self.options(),
            option_view(launch.libjvm_path) == self.libjvm_path(),
            !launch.use_existing,
    {
        let JvmBuilder { options, libjvm_path } = self;
        Launch { libjvm_path, options, use_existing: false }
    }

    /// What has to be done to launch a new runtime, or to use the one that
    /// exists already.
    pub fn launch_or_use_existing(self) -> (launch: Launch)
        ensures
            texts_view(launch.options@) == self.options(),
            option_view(launch.libjvm_path) == self.libjvm_path(),
            launch.use_existing,
    {
        let JvmBuilder { options, libjvm_path } = self;
        Launch { libjvm_path, options, use_existing: true }
    }
}

/// What follows an attempt to create the runtime: the runtime is recorded
/// if it was created; the one that exists is asked for, if that is why the
/// attempt failed and the launch may use it; any other failure ends the
/// launch.
pub open spec fn after_creation<T>(
    use_existing: bool,
    outcome: Result<JvmPtr, Error<T>>,
) -> LaunchStep<T> {
    match outcome {
        Ok(jvm) => LaunchStep::Record(jvm),
        Err(Error::JvmAlreadyExists) => if use_existing {
            LaunchStep::FindExisting
        } else {
            LaunchStep::Fail(Error::JvmAlreadyExists)
        },
        Err(e) => LaunchStep::Fail(e),
    }
}

impl Launch {
    /// Decides what follows an attempt to create the runtime.
    pub fn created<T>(&self, outcome: Result<JvmPtr, Error<T>>) -> (step: LaunchStep<T>)
        ensures
            step == after_creation(self.use_existing, outcome),
    {
        match outcome {
            Ok(jvm) => LaunchStep::Record(jvm),
            Err(Error::JvmAlreadyExists) => if self.use_existing {
                LaunchStep::FindExisting
            } else {
                LaunchStep::Fail(Error::JvmAlreadyExists)
            },
            Err(e) => LaunchStep::Fail(e),
        }
    }

    /// Decides what follows the search for the runtime that exists already:
    /// it is recorded if it was found; that none was found is a fault of
    /// the runtime.
    pub fn existing<T>(found: Result<Option<JvmPtr>, Error<T>>) -> (step: LaunchStep<T>)
        ensures
            match found {
                Ok(Some(jvm)) => step == LaunchStep::<T>::Record(jvm),
                Ok(None) => step matches LaunchStep::Fail(Error::JvmInternal(m)) && m@
                    == "JVM should already exist"@,
                Err(e) => step == LaunchStep::Fail(e),
            },
    {
        match found {
            Ok(Some(jvm)) => LaunchStep::Record(jvm),
            Ok(None) => LaunchStep::Fail(
                Error::JvmInternal(String::from_str("JVM should already exist")),
            ),
            Err(e) => LaunchStep::Fail(e),
        }
    }
}

/// The record of the managed runtime that this process launched. It is
/// written at most once.
pub struct GlobalJvm {
    cell: OnceCell<u64>,
}

/// What has to be done before work with the managed runtime can start.
pub enum Attach {
    /// The runtime is there: attach the thread to it.
    Thread(JvmPtr),
    /// No runtime is recorded: launch one first, or use the one that
    /// exists.
    LaunchFirst(Launch),
}

impl GlobalJvm {
    /// The handle of the runtime that is recorded, once one is: no handle,
    /// or one.
    pub closed spec fn launched(&self) -> Seq<u64> {
        cell_contents(self.cell)
    }

    /// A record that holds no runtime yet.
    pub fn new() -> GlobalJvm {
        GlobalJvm { cell: cell_new() }
    }

    /// The runtime that is recorded, given what the record was found to
    /// hold: the runtime with the handle that it holds, or none where it
    /// holds nothing.
    pub fn recorded(cached: Option<u64>) -> (jvm: Option<JvmPtr>)
        ensures
            match cached {
                Some(address) => jvm matches Some(j) && j.address() == address,
                None => jvm is None,
            },
    {
        match cached {
            Some(address) => Some(JvmPtr::kept(address)),
            None => None,
        }
    }

    /// The runtime that is recorded, if one is. Whether one is depends on
    /// what has been recorded by now, by this caller or by another; a
    /// runtime that is given is the one that the record holds for good.
    pub fn get(&self) -> (jvm: Option<JvmPtr>)
        ensures
            jvm matches Some(j) ==> self.launched() == seq![j.address()],
    {
        GlobalJvm::recorded(cell_get(&self.cell))
    }

    /// Records a runtime, unless one is recorded already, and returns the
    /// one that is recorded from now on.
    pub fn record(&self, jvm: JvmPtr) -> (held: JvmPtr)
        ensures
            self.launched() == seq![held.address()],
    {
        let (address, _) = cell_try_insert(&self.cell, jvm.as_u64());
        JvmPtr::kept(address)
    }
}

/// The runtime that is recorded; where none is, the launch that has to be
/// made first, with the options that a builder starts with.
pub fn get_or_default_init_jvm(global: &GlobalJvm, check_jni: bool, classpath: Option<String>) -> (r:
    Result<JvmPtr, Launch>)
    ensures
        match r {
            Ok(jvm) => global.launched() == seq![jvm.address()],
            Err(launch) => launch.use_existing && launch.libjvm_path is None && texts_view(
                launch.options@,
            ) == default_options(check_jni, option_view(classpath)),
        },
{
    match global.get() {
        Some(jvm) => Ok(jvm),
        None => Err(Jvm::builder(check_jni, classpath).launch_or_use_existing()),
    }
}

/// The runtime that is recorded, for callers that hold a value which only
/// a runtime can have given them; none if no runtime is recorded.
pub fn unwrap_global_jvm(global: &GlobalJvm) -> (jvm: Option<JvmPtr>)
    ensures
        jvm matches Some(j) ==> global.launched() == seq![j.address()],
{
    global.get()
}

/// A type of the managed runtime: it can be the element type of an array.
pub trait JavaType {
    /// The name by which the runtime finds the class of arrays of this type.
    spec fn array_class_spec() -> Seq<char>;

    /// The name by which the runtime finds the class of arrays of this type.
    fn array_class() -> (name: String)
        ensures
            name@ == Self::array_class_spec(),
    ;
}

/// A class or interface of the managed runtime.
pub trait JavaObject: JavaType + Sized {
    /// The name by which the runtime finds the class.
    spec fn class_spec() -> Seq<char>;

    /// The name by which the runtime finds the class.
    fn class() -> (name: String)
        ensures
            name@ == Self::class_spec(),
    ;
}

/// A primitive type of the managed runtime.
pub trait JavaScalar: JavaType {

}

impl JavaType for bool {
    open spec fn array_class_spec() -> Seq<char> {
        "[Z"@
    }

    fn array_class() -> (name: String) {
        String::from_str("[Z")
    }
}

impl JavaScalar for bool {

}

impl JavaType for i8 {
    open spec fn array_class_spec() -> Seq<char> {
        "[B"@
    }

    fn array_class() -> (name: String) {
        String::from_str("[B")
    }
}

impl JavaScalar for i8 {

}

impl JavaType for i16 {
    open spec fn array_class_spec() -> Seq<char> {
        "[S"@
    }

    fn array_class() -> (name: String) {
        String::from_str("[S")
    }
}

impl JavaScalar for i16 {

}

impl JavaType for u16 {
    open spec fn array_class_spec() -> Seq<char> {
        "[C"@
    }

    fn array_class() -> (name: String) {
        String::from_str("[C")
    }
}

impl JavaScalar for u16 {

}

impl JavaType for i32 {
    open spec fn array_class_spec() -> Seq<char> {
        "[I"@
    }

    fn array_class() -> (name: String) {
        String::from_str("[I")
    }
}

impl JavaScalar for i32 {

}

impl JavaType for i64 {
    open spec fn array_class_spec() -> Seq<char> {
        "[J"@
    }

    fn array_class() -> (name: String) {
        String::from_str("[J")
    }
}

impl JavaScalar for i64 {

}

/// The one type that stands for "nothing" where an operation returns
/// nothing.
pub trait IsVoid: Default {

}

impl IsVoid for () {

}

/// A value that can be copied within an entry into the managed runtime.
pub trait CloneIn<'jvm>: Sized {
    /// Whether `copy` is a copy of this value made in the entry `env`.
    spec fn cloned_in(&self, env: EnvPtr, copy: &Self) -> bool;

    /// A copy of this value, made in the given entry.
    fn clone_in(&self, jvm: &mut Jvm<'jvm>) -> (copy: Self)
        ensures
            self.cloned_in(old(jvm).env(), &copy),
            *final(jvm) == *old(jvm),
    ;
}

impl<'jvm, T> CloneIn<'jvm> for Local<'jvm, T> {
    /// The copy points to the same object and belongs to the entry.
    open spec fn cloned_in(&self, env: EnvPtr, copy: &Self) -> bool {
        copy.object() == self.object() && copy.env() == env
    }

    fn clone_in(&self, jvm: &mut Jvm<'jvm>) -> (copy: Self) {
        jvm.local(self)
    }
}

/// An operation that is run inside an entry into the managed runtime and
/// gives a value or an error. Operations can be chained, so that one entry
/// serves for several of them.
pub trait JvmOp<'jvm>: Sized {
    /// What the operation gives.
    type Output;

    /// Whether the operation, run in the entry `before`, may end with
    /// `result` and leave the entry as `after`. Each operation says this
    /// of itself.
    spec fn gives(
        self,
        before: Jvm<'jvm>,
        after: Jvm<'jvm>,
        result: Result<Self::Output, Error<Local<'jvm, crate::java::Throwable>>>,
    ) -> bool;

    /// Runs the operation.
    fn execute(self, jvm: &mut Jvm<'jvm>) -> (result: Result<
        Self::Output,
        Error<Local<'jvm, crate::java::Throwable>>,
    >)
        ensures
            self.gives(*old(jvm), *final(jvm), result),
    ;

    /// The operation that runs this one and makes what it gives independent
    /// of the entry, so that it can be kept for as long as one likes.
    fn global(self) -> (op: crate::global::GlobalOp<Self>) where
        Self::Output: crate::global::IntoGlobal<'jvm>,

        ensures
            op.inner() == self,
    {
        crate::global::GlobalOp::new(self)
    }
}

} // verus!
