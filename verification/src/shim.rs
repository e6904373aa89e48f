//! The synthesis of shim classes: for an interface of the managed runtime, a
//! class that implements it and forwards every method to native code.

use crate::class_info::{
    dollar_name, dotted_name, duchess_chars, jni_name, method_descriptor, methods_view,
    push_return_descriptor, push_types_descriptor, type_slots, types_descriptor, types_view,
    ClassInfo, ClassInfoView, ClassKind, DotId, Method, MethodView, RefType, ScalarType, Span,
    Type, TypeView,
};
use crate::classfile::{
    be16, class_entries, class_file, code_attribute, member_entries, member_header, mutf8_bytes,
    mutf8_encode, plain_ascii, push_all, push_u16, utf8_entry, ClassAssembler, FIELD_REF,
    METHOD_REF, U16_LIMIT,
};
use crate::linkage::NativeMethod;
use crate::text::push_char;
use vstd::prelude::*;
use vstd::string::*;

verus! {

/// Why a class file could not be written.
#[derive(Clone, Copy, Debug, PartialEq, Eq, Structural)]
pub enum EncodeErrorKind {
    /// The class would need more constants than a class file can hold.
    TooManyItems,
    /// A name or descriptor is longer than a class file can hold.
    StringTooLong,
    /// The arguments of a method take more local-variable slots than a
    /// method of the managed runtime can have.
    TooManyArguments,
}

/// Why no shim class was generated for a description.
#[derive(Debug)]
pub enum ShimError {
    /// The description is of a class, not of an interface.
    NotAnInterface { class: String, span: Span },
    /// The interface extends another one.
    Extends { class: String, extends: String, span: Span },
    /// A method of the interface has type parameters of its own.
    GenericMethod { class: String, method: String, span: Span },
    /// Two methods of the interface have the same name and, once type
    /// parameters are erased, the same descriptor.
    ErasureCollision { class: String, method: String, span: Span },
    /// The class file could not be written.
    Encode { kind: EncodeErrorKind, span: Span },
}

/// What an error is, in mathematical terms.
pub enum ShimErrorView {
    NotAnInterface { class: Seq<char>, span: Span },
    Extends { class: Seq<char>, extends: Seq<char>, span: Span },
    GenericMethod { class: Seq<char>, method: Seq<char>, span: Span },
    ErasureCollision { class: Seq<char>, method: Seq<char>, span: Span },
    Encode { kind: EncodeErrorKind, span: Span },
}

impl View for ShimError {
    type V = ShimErrorView;

    open spec fn view(&self) -> ShimErrorView {
        match *self {
            ShimError::NotAnInterface { class, span } => ShimErrorView::NotAnInterface {
                class: class@,
                span,
            },
            ShimError::Extends { class, extends, span } => ShimErrorView::Extends {
                class: class@,
                extends: extends@,
                span,
            },
            ShimError::GenericMethod { class, method, span } => ShimErrorView::GenericMethod {
                class: class@,
                method: method@,
                span,
            },
            ShimError::ErasureCollision { class, method, span } => ShimErrorView::ErasureCollision {
                class: class@,
                method: method@,
                span,
            },
            ShimError::Encode { kind, span } => ShimErrorView::Encode { kind, span },
        }
    }
}

/// The words for why a class file could not be written.
pub open spec fn encode_error_text(kind: EncodeErrorKind) -> Seq<char> {
    match kind {
        EncodeErrorKind::TooManyItems => "too many items"@,
        EncodeErrorKind::StringTooLong => "string is too long"@,
        EncodeErrorKind::TooManyArguments => "too many arguments"@,
    }
}

/// The message of an error.
pub open spec fn shim_error_text(error: ShimErrorView) -> Seq<char> {
    match error {
        ShimErrorView::NotAnInterface { class, .. } => "cannot generate interface shim for class `"@
            + class + "`"@,
        ShimErrorView::Extends { class, extends, .. } => "cannot generate interface shim for class `"@
            + class + "` because it extends `"@ + extends + "`"@,
        ShimErrorView::GenericMethod { class, method, .. } =>
            "cannot generate interface shim for class `"@ + class + "` because method `"@ + method
                + "` has generics"@,
        ShimErrorView::ErasureCollision { class, method, .. } =>
            "cannot generate interface shim for class `"@ + class + "` because method `"@ + method
                + "` is declared twice with one erased signature"@,
        ShimErrorView::Encode { kind, .. } => encode_error_text(kind),
    }
}

/// Where in the source the description stands that an error is about.
pub open spec fn shim_error_span(error: ShimErrorView) -> Span {
    match error {
        ShimErrorView::NotAnInterface { span, .. } => span,
        ShimErrorView::Extends { span, .. } => span,
        ShimErrorView::GenericMethod { span, .. } => span,
        ShimErrorView::ErasureCollision { span, .. } => span,
        ShimErrorView::Encode { span, .. } => span,
    }
}

impl ShimError {
    /// The message of this error.
    pub fn message(&self) -> (text: String)
        ensures
            text@ == shim_error_text(self@),
    {
        match self {
            ShimError::NotAnInterface { class, .. } => {
                let mut text = String::from_str("cannot generate interface shim for class `");
                text.append(class.as_str());
                text.append("`");
                text
            },
            ShimError::Extends { class, extends, .. } => {
                let mut text = String::from_str("cannot generate interface shim for class `");
                text.append(class.as_str());
                text.append("` because it extends `");
                text.append(extends.as_str());
                text.append("`");
                text
            },
            ShimError::GenericMethod { class, method, .. } => {
                let mut text = String::from_str("cannot generate interface shim for class `");
                text.append(class.as_str());
                text.append("` because method `");
                text.append(method.as_str());
                text.append("` has generics");
                text
            },
            ShimError::ErasureCollision { class, method, .. } => {
                let mut text = String::from_str("cannot generate interface shim for class `");
                text.append(class.as_str());
                text.append("` because method `");
                text.append(method.as_str());
                text.append("` is declared twice with one erased signature");
                text
            },
            ShimError::Encode { kind, .. } => match kind {
                EncodeErrorKind::TooManyItems => String::from_str("too many items"),
                EncodeErrorKind::StringTooLong => String::from_str("string is too long"),
                EncodeErrorKind::TooManyArguments => String::from_str("too many arguments"),
            },
        }
    }

    /// Where in the source the description stands that this error is about.
    pub fn span(&self) -> (span: Span)
        ensures
            span == shim_error_span(self@),
    {
        match self {
            ShimError::NotAnInterface { span, .. } => *span,
            ShimError::Extends { span, .. } => *span,
            ShimError::GenericMethod { span, .. } => *span,
            ShimError::ErasureCollision { span, .. } => *span,
            ShimError::Encode { span, .. } => *span,
        }
    }
}

/// The most methods an interface can have for its shim to fit the constant
/// pool of a class file.
pub const MAX_METHODS: usize = 3853;

/// The most local-variable slots the arguments of a method can take: with
/// them, the receiver and the handle that the native method takes as well
/// have to fit the 255 slots that a method of the managed runtime can have.
pub const MAX_ARGUMENT_SLOTS: usize = 252;

/// The access flags of a shim class: static and final.
pub const CLASS_FLAGS: u16 = 0x0018;

/// The access flag of a method that native code implements.
pub const NATIVE_FLAG: u16 = 0x0100;

/// The access flag of a method that everyone may call.
pub const PUBLIC_FLAG: u16 = 0x0001;

/// The major version of the class files that are written.
pub const MAJOR_VERSION: u16 = 59;

/// The number of constants that a shim class holds whatever its methods.
pub const FIXED_CONSTANTS: u16 = 23;

/// The number of constants that each method of a shim class adds.
pub const METHOD_CONSTANTS: u16 = 17;

/// The index of the first constant of the method at position `i`.
pub open spec fn method_base(i: int) -> int {
    FIXED_CONSTANTS + 1 + METHOD_CONSTANTS * i
}

/// The qualified name of the shim class for the interface of the given
/// name: in the package `duchess`, `Impl$` followed by the interface's name
/// with `$` between its identifiers.
pub open spec fn shim_class_name(interface: Seq<Seq<char>>) -> Seq<Seq<char>> {
    seq![duchess_chars(), "Impl$"@ + dollar_name(interface)]
}

/// The name of the native method that the method of the given name forwards
/// to.
pub open spec fn native_name(method: Seq<char>) -> Seq<char> {
    "native$"@ + method
}

/// The type of the handle that a shim holds and hands to native code.
pub open spec fn handle_type() -> TypeView {
    TypeView::Scalar(ScalarType::Long)
}

/// The descriptor of the native method for a method: that of the method
/// with the handle as one more argument at the end.
pub open spec fn native_descriptor(method: MethodView) -> Seq<char> {
    method_descriptor(method.argument_tys.push(handle_type()), method.return_ty)
}

/// The number of local-variable slots that values of the given types take.
pub open spec fn types_slots(tys: Seq<TypeView>) -> nat
    decreases tys.len(),
{
    if tys.len() == 0 {
        0
    } else {
        types_slots(tys.drop_last()) + type_slots(tys.last())
    }
}

/// The instruction that loads a reference from the local variable `i`: the
/// short form for the first four variables, the general form otherwise.
pub open spec fn aload_code(i: u8) -> Seq<u8> {
    if i <= 3 {
        seq![(0x2a + i) as u8]
    } else {
        seq![0x19u8, i]
    }
}

/// The instruction that loads an `int` from the local variable `i`: the
/// short form for the first four variables, the general form otherwise.
pub open spec fn iload_code(i: u8) -> Seq<u8> {
    if i <= 3 {
        seq![(0x1a + i) as u8]
    } else {
        seq![0x15u8, i]
    }
}

/// The instruction that loads a value of the given type from the local
/// variable `i`: references and the primitive types that the runtime keeps
/// as `int` each have one form, the wide integer and the two floating types
/// have forms of their own.
pub open spec fn load_code(ty: TypeView, i: u8) -> Seq<u8> {
    match ty {
        TypeView::Scalar(ScalarType::Long) => seq![0x16u8, i],
        TypeView::Scalar(ScalarType::F64) => seq![0x18u8, i],
        TypeView::Scalar(ScalarType::F32) => seq![0x17u8, i],
        TypeView::Scalar(_) => iload_code(i),
        _ => aload_code(i),
    }
}

/// The instructions that load the arguments of a method in order, the first
/// of them from the local variable `first`.
pub open spec fn loads_code(tys: Seq<TypeView>, first: int) -> Seq<u8>
    decreases tys.len(),
{
    if tys.len() == 0 {
        Seq::empty()
    } else {
        loads_code(tys.drop_last(), first) + load_code(
            tys.last(),
            (first + types_slots(tys.drop_last())) as u8,
        )
    }
}

/// The instruction that returns a value of the given type to the caller.
pub open spec fn return_code(ty: Option<TypeView>) -> u8 {
    match ty {
        None => 0xb1,
        Some(TypeView::Scalar(ScalarType::Long)) => 0xad,
        Some(TypeView::Scalar(ScalarType::F64)) => 0xaf,
        Some(TypeView::Scalar(ScalarType::F32)) => 0xae,
        Some(TypeView::Scalar(_)) => 0xac,
        Some(_) => 0xb0,
    }
}

/// What the class file holds for one method: its names and descriptors as
/// bytes, the instructions that load its arguments, the slots that they
/// take, and the instruction that returns its result.
pub struct MethodLayout {
    pub native_name: Seq<u8>,
    pub native_descriptor: Seq<u8>,
    pub name: Seq<u8>,
    pub descriptor: Seq<u8>,
    pub loads: Seq<u8>,
    pub slots: int,
    pub ret: u8,
}

/// The layout of a method of an interface.
pub open spec fn method_layout(method: MethodView) -> MethodLayout {
    MethodLayout {
        native_name: mutf8_bytes(native_name(method.name)),
        native_descriptor: mutf8_bytes(native_descriptor(method)),
        name: mutf8_bytes(method.name),
        descriptor: mutf8_bytes(method_descriptor(method.argument_tys, method.return_ty)),
        loads: loads_code(method.argument_tys, 1),
        slots: types_slots(method.argument_tys) as int,
        ret: return_code(method.return_ty),
    }
}

/// The layouts of the methods, in order.
pub open spec fn method_layouts(methods: Seq<MethodView>) -> Seq<MethodLayout> {
    Seq::new(methods.len(), |i: int| method_layout(methods[i]))
}

/// The name of the field that holds the handle, as bytes.
pub open spec fn pointer_name() -> Seq<u8> {
    mutf8_bytes("nativePointer"@)
}

/// The descriptor of the handle, as bytes.
pub open spec fn pointer_descriptor() -> Seq<u8> {
    mutf8_bytes("J"@)
}

/// The name of the root class, as bytes.
pub open spec fn object_class() -> Seq<u8> {
    mutf8_bytes("java/lang/Object"@)
}

/// The name of every constructor, as bytes.
pub open spec fn init_name() -> Seq<u8> {
    mutf8_bytes("<init>"@)
}

/// The name of the code attribute, as bytes.
pub open spec fn code_name() -> Seq<u8> {
    mutf8_bytes("Code"@)
}

/// The constants that every shim class starts with, from index 1: the class
/// itself, the root class, the interface, the field of the handle, the
/// constructor, and what the constructor's code refers to.
#[verifier::opaque]
pub open spec fn fixed_pool(this: Seq<u8>, interface: Seq<u8>) -> Seq<u8> {
    class_entries(this, 1) + class_entries(object_class(), 3) + class_entries(interface, 5)
        + utf8_entry(pointer_name()) + utf8_entry(pointer_descriptor()) + utf8_entry(init_name())
        + utf8_entry(mutf8_bytes("(J)V"@)) + utf8_entry(code_name()) + member_entries(
        METHOD_REF,
        object_class(),
        init_name(),
        mutf8_bytes("()V"@),
        12,
    ) + member_entries(FIELD_REF, this, pointer_name(), pointer_descriptor(), 18)
}

/// The constants of one method, from index `base`: the native method's name
/// and descriptor, the method's own, the name of the code attribute, the
/// field of the handle, and the native method.
#[verifier::opaque]
pub open spec fn method_pool(this: Seq<u8>, method: MethodLayout, base: int) -> Seq<u8> {
    utf8_entry(method.native_name) + utf8_entry(method.native_descriptor) + utf8_entry(method.name)
        + utf8_entry(method.descriptor) + utf8_entry(code_name()) + member_entries(
        FIELD_REF,
        this,
        pointer_name(),
        pointer_descriptor(),
        base + 5,
    ) + member_entries(
        METHOD_REF,
        this,
        method.native_name,
        method.native_descriptor,
        base + 11,
    )
}

/// The constants of all methods, one method after the other.
pub open spec fn methods_pool(this: Seq<u8>, methods: Seq<MethodLayout>) -> Seq<u8>
    decreases methods.len(),
{
    if methods.len() == 0 {
        Seq::empty()
    } else {
        methods_pool(this, methods.drop_last()) + method_pool(
            this,
            methods.last(),
            method_base(methods.len() - 1),
        )
    }
}

/// The code of the constructor: it calls the constructor of the root class,
/// stores its argument in the field of the handle, and returns.
pub open spec fn constructor_code() -> Seq<u8> {
    seq![0x2au8, 0xb7u8] + be16(17) + seq![0x2au8, 0x1fu8, 0xb5u8] + be16(23) + seq![0xb1u8]
}

/// The code of a method: it loads the receiver, each argument and the
/// handle, calls the native method, and returns what that returned.
pub open spec fn method_code(method: MethodLayout, base: int) -> Seq<u8> {
    seq![0x2au8] + method.loads + seq![0x2au8, 0xb4u8] + be16(base + 10) + seq![0xb6u8] + be16(
        base + 16,
    ) + seq![method.ret]
}

/// What the class file holds for one method after the constants: the
/// declaration of the native method, then the method itself with its code.
#[verifier::opaque]
pub open spec fn method_body(method: MethodLayout, base: int) -> Seq<u8> {
    member_header(NATIVE_FLAG as int, base, base + 1, 0) + member_header(
        PUBLIC_FLAG as int,
        base + 2,
        base + 3,
        1,
    ) + code_attribute(base + 4, method.slots + 3, method.slots + 1, method_code(method, base))
}

/// What the class file holds for all methods, one after the other.
pub open spec fn methods_body(methods: Seq<MethodLayout>) -> Seq<u8>
    decreases methods.len(),
{
    if methods.len() == 0 {
        Seq::empty()
    } else {
        methods_body(methods.drop_last()) + method_body(
            methods.last(),
            method_base(methods.len() - 1),
        )
    }
}

/// What a shim class holds before its methods: its flags, itself, the root
/// class as its superclass, the one interface, the one field, the number of
/// its methods, and the constructor.
#[verifier::opaque]
pub open spec fn body_head(methods: int) -> Seq<u8> {
    be16(CLASS_FLAGS as int) + be16(2) + be16(4) + be16(1) + be16(6) + be16(1) + member_header(
        0,
        7,
        8,
        0,
    ) + be16(1 + 2 * methods) + member_header(0, 9, 10, 1) + code_attribute(
        11,
        3,
        3,
        constructor_code(),
    )
}

/// The class file of a shim class, given the names of the class and of the
/// interface as bytes, and the layouts of the methods.
pub open spec fn class_bytes(this: Seq<u8>, interface: Seq<u8>, methods: Seq<MethodLayout>) -> Seq<
    u8,
> {
    class_file(
        0,
        MAJOR_VERSION as int,
        method_base(methods.len() as int),
        fixed_pool(this, interface) + methods_pool(this, methods),
        body_head(methods.len() as int) + methods_body(methods) + be16(0),
    )
}

/// The class file of the shim class for an interface.
pub open spec fn shim_class_bytes(interface: ClassInfoView) -> Seq<u8> {
    class_bytes(
        mutf8_bytes(jni_name(shim_class_name(interface.name))),
        mutf8_bytes(jni_name(interface.name)),
        method_layouts(interface.methods),
    )
}


/// The view of a reference type is never that of a primitive type.
pub proof fn lemma_reference_view(ty: RefType)
    ensures
        !(ty@ is Scalar),
        !(ty@ is Repeat),
{
    match ty {
        RefType::Class(_) => {},
        RefType::Array(_) => {},
        RefType::TypeParameter(_) => {},
    }
}

/// Appends the instruction that loads a reference from the local variable
/// `i`.
pub fn aloadi(code: &mut Vec<u8>, i: u8)
    ensures
        final(code)@ == old(code)@ + aload_code(i),
{
    if i <= 3 {
        code.push(0x2a + i);
    } else {
        code.push(0x19);
        code.push(i);
    }
    assert(code@ =~= old(code)@ + aload_code(i));
}

/// Appends the instruction that loads an `int` from the local variable `i`.
pub fn iloadi(code: &mut Vec<u8>, i: u8)
    ensures
        final(code)@ == old(code)@ + iload_code(i),
{
    if i <= 3 {
        code.push(0x1a + i);
    } else {
        code.push(0x15);
        code.push(i);
    }
    assert(code@ =~= old(code)@ + iload_code(i));
}

/// Appends the instruction that loads a value of type `ty` from the local
/// variable `i`.
pub fn load(code: &mut Vec<u8>, ty: &Type, i: u8)
    ensures
        final(code)@ == old(code)@ + load_code(ty@, i),
        final(code)@.len() <= old(code)@.len() + 2,
{
    match ty {
        Type::Ref(r) => {
            proof {
                lemma_reference_view(*r);
            }
            aloadi(code, i)
        },
        Type::Scalar(s) => match s {
            ScalarType::Long => {
                code.push(0x16);
                code.push(i);
                assert(code@ =~= old(code)@ + load_code(ty@, i));
            },
            ScalarType::Int
            | ScalarType::Byte
            | ScalarType::Short
            | ScalarType::Boolean
            | ScalarType::Char => iloadi(code, i),
            ScalarType::F64 => {
                code.push(0x18);
                code.push(i);
                assert(code@ =~= old(code)@ + load_code(ty@, i));
            },
            ScalarType::F32 => {
                code.push(0x17);
                code.push(i);
                assert(code@ =~= old(code)@ + load_code(ty@, i));
            },
        },
        Type::Repeat(_) => aloadi(code, i),
    }
}

/// The instruction that returns a value of the given type.
pub fn return_instruction(ty: &Option<Type>) -> (op: u8)
    ensures
        op == return_code(crate::class_info::return_view(*ty)),
{
    match ty {
        None => 0xb1,
        Some(Type::Scalar(s)) => match s {
            ScalarType::Long => 0xad,
            ScalarType::F64 => 0xaf,
            ScalarType::F32 => 0xae,
            _ => 0xac,
        },
        Some(Type::Ref(r)) => {
            proof {
                lemma_reference_view(*r);
            }
            0xb0
        },
        Some(Type::Repeat(_)) => 0xb0,
    }
}

/// The slots of a prefix of a list of types are no more than those of the
/// whole list.
pub proof fn lemma_slots_of_prefix(tys: Seq<TypeView>, i: int)
    requires
        0 <= i <= tys.len(),
    ensures
        types_slots(tys.take(i)) <= types_slots(tys),
    decreases tys.len() - i,
{
    if i == tys.len() {
        assert(tys.take(i) =~= tys);
    } else {
        lemma_slots_of_prefix(tys, i + 1);
        assert(tys.take(i + 1).drop_last() =~= tys.take(i));
    }
}

/// A method of a shim class, made ready to be written.
pub struct MethodPlan {
    pub native_name: Vec<u8>,
    pub native_descriptor: Vec<u8>,
    pub name: Vec<u8>,
    pub descriptor: Vec<u8>,
    pub loads: Vec<u8>,
    pub slots: u16,
    pub ret: u8,
}

impl View for MethodPlan {
    type V = MethodLayout;

    open spec fn view(&self) -> MethodLayout {
        MethodLayout {
            native_name: self.native_name@,
            native_descriptor: self.native_descriptor@,
            name: self.name@,
            descriptor: self.descriptor@,
            loads: self.loads@,
            slots: self.slots as int,
            ret: self.ret,
        }
    }
}

/// The layouts of the plans, in order.
pub open spec fn plans_view(plans: Seq<MethodPlan>) -> Seq<MethodLayout> {
    Seq::new(plans.len(), |i: int| plans[i]@)
}

/// Whether a method fits the fields of a class file.
pub open spec fn layout_fits(method: MethodLayout) -> bool {
    &&& method.native_name.len() <= U16_LIMIT
    &&& method.native_descriptor.len() <= U16_LIMIT
    &&& method.name.len() <= U16_LIMIT
    &&& method.descriptor.len() <= U16_LIMIT
    &&& 0 <= method.slots <= MAX_ARGUMENT_SLOTS
    &&& method.loads.len() <= 2 * MAX_ARGUMENT_SLOTS
}

/// Why a method cannot be written, if it cannot: its arguments take too
/// many slots, or else one of its names and descriptors is too long.
pub open spec fn method_rejection(method: MethodView) -> Option<EncodeErrorKind> {
    let layout = method_layout(method);
    if layout.slots > MAX_ARGUMENT_SLOTS {
        Some(EncodeErrorKind::TooManyArguments)
    } else if layout.native_name.len() > U16_LIMIT || layout.native_descriptor.len() > U16_LIMIT
        || layout.name.len() > U16_LIMIT || layout.descriptor.len() > U16_LIMIT {
        Some(EncodeErrorKind::StringTooLong)
    } else {
        None
    }
}

/// The name of the native method that a method forwards to.
pub fn native_method_name(method: &Method) -> (name: String)
    ensures
        name@ == native_name(method@.name),
{
    let mut name = String::from_str("native$");
    name.append(method.name.as_str());
    name
}

/// The descriptor of the native method that a method forwards to.
pub fn native_method_descriptor(method: &Method) -> (descriptor: String)
    ensures
        descriptor@ == native_descriptor(method@),
{
    let ghost tys = method@.argument_tys;
    let mut descriptor = String::new();
    push_char(&mut descriptor, '(');
    push_types_descriptor(&method.argument_tys, &mut descriptor);
    push_char(&mut descriptor, 'J');
    push_char(&mut descriptor, ')');
    push_return_descriptor(&method.return_ty, &mut descriptor);
    proof {
        let with_handle = tys.push(handle_type());
        assert(with_handle.drop_last() =~= tys);
        assert(descriptor@ =~= native_descriptor(method@));
    }
    descriptor
}

/// The native methods that the shim class of an interface declares, one
/// for each method of the interface and in their order. These are the
/// methods that native code has to supply when the class is resolved.
pub fn native_methods(interface: &ClassInfo) -> (natives: Vec<NativeMethod>)
    ensures
        natives@.len() == interface@.methods.len(),
        forall|i: int|
            0 <= i < natives@.len() ==> (#[trigger] natives@[i]).name@ == native_name(
                interface@.methods[i].name,
            ) && natives@[i].descriptor@ == native_descriptor(interface@.methods[i]),
{
    let mut natives: Vec<NativeMethod> = Vec::new();
    let n = interface.methods.len();
    let mut i: usize = 0;
    while i < n
        invariant
            n == interface.methods@.len(),
            i <= n,
            natives@.len() == i,
            forall|k: int|
                0 <= k < i ==> (#[trigger] natives@[k]).name@ == native_name(
                    interface@.methods[k].name,
                ) && natives@[k].descriptor@ == native_descriptor(interface@.methods[k]),
        decreases n - i,
    {
        let method = &interface.methods[i];
        assert(interface@.methods[i as int] == method@);
        natives.push(
            NativeMethod {
                name: native_method_name(method),
                descriptor: native_method_descriptor(method),
            },
        );
        i += 1;
    }
    natives
}

/// Makes a method ready to be written, or says why it cannot be.
pub fn plan_method(method: &Method) -> (r: Result<MethodPlan, EncodeErrorKind>)
    ensures
        match r {
            Ok(plan) => method_rejection(method@) is None && plan@ == method_layout(method@)
                && layout_fits(plan@),
            Err(kind) => method_rejection(method@) == Some(kind),
        },
{
    let ghost tys = method@.argument_tys;
    let n = method.argument_tys.len();
    let mut loads: Vec<u8> = Vec::new();
    let mut slot: u16 = 1;
    let mut i: usize = 0;
    while i < n
        invariant
            n == method.argument_tys@.len(),
            tys == types_view(method.argument_tys@),
            i <= n,
            slot == 1 + types_slots(tys.take(i as int)),
            slot <= 1 + MAX_ARGUMENT_SLOTS,
            loads@ == loads_code(tys.take(i as int), 1),
            loads@.len() <= 2 * (slot - 1),
        decreases n - i,
    {
        let ty = &method.argument_tys[i];
        let width = ty.slots();
        proof {
            assert(tys.take(i + 1).drop_last() =~= tys.take(i as int));
            assert(tys.take(i + 1).last() == ty@);
        }
        if slot + width > 1 + MAX_ARGUMENT_SLOTS as u16 {
            proof {
                lemma_slots_of_prefix(tys, i + 1);
            }
            return Err(EncodeErrorKind::TooManyArguments);
        }
        load(&mut loads, ty, slot as u8);
        slot = slot + width;
        i += 1;
    }
    proof {
        assert(tys.take(n as int) =~= tys);
    }
    let native = native_method_name(method);
    let native_name = mutf8_encode(native.as_str());
    let native_signature = native_method_descriptor(method);
    let native_descriptor = mutf8_encode(native_signature.as_str());
    let name = mutf8_encode(method.name.as_str());
    let signature = method.descriptor();
    let descriptor = mutf8_encode(signature.as_str());
    if native_name.len() > U16_LIMIT || native_descriptor.len() > U16_LIMIT || name.len()
        > U16_LIMIT || descriptor.len() > U16_LIMIT {
        return Err(EncodeErrorKind::StringTooLong);
    }
    let ret = return_instruction(&method.return_ty);
    Ok(
        MethodPlan {
            native_name,
            native_descriptor,
            name,
            descriptor,
            loads,
            slots: slot - 1,
            ret,
        },
    )
}

/// The texts that every shim class holds, as bytes.
pub struct FixedNames {
    pub pointer_name: Vec<u8>,
    pub pointer_descriptor: Vec<u8>,
    pub object_class: Vec<u8>,
    pub init_name: Vec<u8>,
    pub init_descriptor: Vec<u8>,
    pub object_init_descriptor: Vec<u8>,
    pub code_name: Vec<u8>,
}

impl FixedNames {
    /// Whether the texts are the ones that a shim class holds.
    pub open spec fn well_formed(&self) -> bool {
        &&& self.pointer_name@ == pointer_name()
        &&& self.pointer_descriptor@ == pointer_descriptor()
        &&& self.object_class@ == object_class()
        &&& self.init_name@ == init_name()
        &&& self.init_descriptor@ == mutf8_bytes("(J)V"@)
        &&& self.object_init_descriptor@ == mutf8_bytes("()V"@)
        &&& self.code_name@ == code_name()
        &&& self.pointer_name@.len() <= U16_LIMIT
        &&& self.pointer_descriptor@.len() <= U16_LIMIT
        &&& self.object_class@.len() <= U16_LIMIT
        &&& self.init_name@.len() <= U16_LIMIT
        &&& self.init_descriptor@.len() <= U16_LIMIT
        &&& self.object_init_descriptor@.len() <= U16_LIMIT
        &&& self.code_name@.len() <= U16_LIMIT
    }

    /// The texts of a shim class.
    pub fn new() -> (names: FixedNames)
        ensures
            names.well_formed(),
    {
        proof {
            reveal_strlit("nativePointer");
            reveal_strlit("J");
            reveal_strlit("java/lang/Object");
            reveal_strlit("<init>");
            reveal_strlit("(J)V");
            reveal_strlit("()V");
            reveal_strlit("Code");
            assert(plain_ascii("nativePointer"@));
            assert(plain_ascii("J"@));
            assert(plain_ascii("java/lang/Object"@));
            assert(plain_ascii("<init>"@));
            assert(plain_ascii("(J)V"@));
            assert(plain_ascii("()V"@));
            assert(plain_ascii("Code"@));
        }
        FixedNames {
            pointer_name: mutf8_encode("nativePointer"),
            pointer_descriptor: mutf8_encode("J"),
            object_class: mutf8_encode("java/lang/Object"),
            init_name: mutf8_encode("<init>"),
            init_descriptor: mutf8_encode("(J)V"),
            object_init_descriptor: mutf8_encode("()V"),
            code_name: mutf8_encode("Code"),
        }
    }
}


/// Where the constants of one method stand in the constant pool.
pub struct MethodIndices {
    pub native_name: u16,
    pub native_descriptor: u16,
    pub name: u16,
    pub descriptor: u16,
    pub code_name: u16,
    pub field: u16,
    pub native: u16,
}

impl MethodIndices {
    /// Whether the indices are those of a method whose first constant
    /// stands at `base`.
    pub open spec fn at(&self, base: int) -> bool {
        &&& self.native_name == base
        &&& self.native_descriptor == base + 1
        &&& self.name == base + 2
        &&& self.descriptor == base + 3
        &&& self.code_name == base + 4
        &&& self.field == base + 10
        &&& self.native == base + 16
    }
}

/// Writes the constants of one method of a shim class.
pub fn emit_method_constants(
    writer: &mut ClassAssembler,
    names: &FixedNames,
    this: &Vec<u8>,
    plan: &MethodPlan,
) -> (indices: MethodIndices)
    requires
        old(writer).count() + METHOD_CONSTANTS <= U16_LIMIT,
        names.well_formed(),
        this@.len() <= U16_LIMIT,
        layout_fits(plan@),
    ensures
        indices.at(old(writer).count()),
        final(writer).count() == old(writer).count() + METHOD_CONSTANTS,
        final(writer).pool() == old(writer).pool() + method_pool(
            this@,
            plan@,
            old(writer).count(),
        ),
        final(writer).body() == old(writer).body(),
{
    let ghost base = writer.count();
    let ghost start = writer.pool();
    let native_name = writer.utf8(&plan.native_name);
    let native_descriptor = writer.utf8(&plan.native_descriptor);
    let name = writer.utf8(&plan.name);
    let descriptor = writer.utf8(&plan.descriptor);
    let code_index = writer.utf8(&names.code_name);
    let ghost texts = utf8_entry(plan@.native_name) + utf8_entry(plan@.native_descriptor)
        + utf8_entry(plan@.name) + utf8_entry(plan@.descriptor) + utf8_entry(code_name());
    assert(writer.pool() =~= start + texts);
    let field = writer.member(FIELD_REF, this, &names.pointer_name, &names.pointer_descriptor);
    let ghost field_entries = member_entries(
        FIELD_REF,
        this@,
        pointer_name(),
        pointer_descriptor(),
        base + 5,
    );
    assert(writer.pool() =~= start + (texts + field_entries));
    let native = writer.member(
        METHOD_REF,
        this,
        &plan.native_name,
        &plan.native_descriptor,
    );
    let ghost native_entries = member_entries(
        METHOD_REF,
        this@,
        plan@.native_name,
        plan@.native_descriptor,
        base + 11,
    );
    assert(writer.pool() =~= start + ((texts + field_entries) + native_entries));
    assert(method_pool(this@, plan@, base) == (texts + field_entries) + native_entries) by {
        reveal(method_pool);
    }
    MethodIndices {
        native_name,
        native_descriptor,
        name,
        descriptor,
        code_name: code_index,
        field,
        native,
    }
}

/// The code of one method of a shim class.
pub fn emit_method_code(plan: &MethodPlan, indices: &MethodIndices) -> (code: Vec<u8>)
    requires
        indices.at(indices.native_name as int),
        layout_fits(plan@),
    ensures
        code@ == method_code(plan@, indices.native_name as int),
        code@.len() <= U16_LIMIT,
{
    let ghost base = indices.native_name as int;
    let mut code: Vec<u8> = Vec::new();
    code.push(0x2a);
    push_all(&mut code, &plan.loads);
    code.push(0x2a);
    code.push(0xb4);
    push_u16(&mut code, indices.field);
    code.push(0xb6);
    push_u16(&mut code, indices.native);
    code.push(plan.ret);
    assert(code@ =~= method_code(plan@, base));
    code
}

/// Writes one method of a shim class: its constants, the declaration of its
/// native method, and the method itself.
pub fn emit_method(
    writer: &mut ClassAssembler,
    names: &FixedNames,
    this: &Vec<u8>,
    plan: &MethodPlan,
)
    requires
        old(writer).count() + METHOD_CONSTANTS <= U16_LIMIT,
        names.well_formed(),
        this@.len() <= U16_LIMIT,
        layout_fits(plan@),
    ensures
        final(writer).count() == old(writer).count() + METHOD_CONSTANTS,
        final(writer).pool() == old(writer).pool() + method_pool(
            this@,
            plan@,
            old(writer).count(),
        ),
        final(writer).body() == old(writer).body() + method_body(plan@, old(writer).count()),
{
    let ghost base = writer.count();
    let ghost start = writer.body();
    let indices = emit_method_constants(writer, names, this, plan);
    let code = emit_method_code(plan, &indices);
    writer.put_member_header(NATIVE_FLAG, indices.native_name, indices.native_descriptor, 0);
    writer.put_member_header(PUBLIC_FLAG, indices.name, indices.descriptor, 1);
    let ghost headers = member_header(NATIVE_FLAG as int, base, base + 1, 0) + member_header(
        PUBLIC_FLAG as int,
        base + 2,
        base + 3,
        1,
    );
    assert(writer.body() =~= start + headers);
    writer.put_code(indices.code_name, plan.slots + 3, plan.slots + 1, &code);
    let ghost attribute = code_attribute(
        base + 4,
        plan@.slots + 3,
        plan@.slots + 1,
        method_code(plan@, base),
    );
    assert(writer.body() =~= start + (headers + attribute));
    assert(method_body(plan@, base) == headers + attribute) by {
        reveal(method_body);
    }
}

/// Laying sequences end to end does not depend on how they are grouped.
proof fn lemma_grouping(a: Seq<u8>, b: Seq<u8>, c: Seq<u8>)
    ensures
        (a + b) + c == a + (b + c),
{
    assert((a + b) + c =~= a + (b + c));
}

/// Writes what every shim class holds before its methods: the constants
/// that it starts with, its head, its one field and its constructor.
pub fn emit_fixed(
    writer: &mut ClassAssembler,
    names: &FixedNames,
    this: &Vec<u8>,
    interface: &Vec<u8>,
    methods: usize,
)
    requires
        old(writer).count() == 1,
        old(writer).pool() == Seq::<u8>::empty(),
        old(writer).body() == Seq::<u8>::empty(),
        names.well_formed(),
        this@.len() <= U16_LIMIT,
        interface@.len() <= U16_LIMIT,
        methods <= MAX_METHODS,
    ensures
        final(writer).count() == method_base(0),
        final(writer).pool() == fixed_pool(this@, interface@),
        final(writer).body() == body_head(methods as int),
{
    let this_class = writer.class(this);
    let super_class = writer.class(&names.object_class);
    let interface_class = writer.class(interface);
    let pointer_name = writer.utf8(&names.pointer_name);
    let pointer_descriptor = writer.utf8(&names.pointer_descriptor);
    let init_name = writer.utf8(&names.init_name);
    let init_descriptor = writer.utf8(&names.init_descriptor);
    let code_name = writer.utf8(&names.code_name);
    let object_init = writer.member(
        METHOD_REF,
        &names.object_class,
        &names.init_name,
        &names.object_init_descriptor,
    );
    let pointer = writer.member(FIELD_REF, this, &names.pointer_name, &names.pointer_descriptor);
    assert(writer.pool() =~= fixed_pool(this@, interface@)) by {
        reveal(fixed_pool);
    }
    writer.put_u16(CLASS_FLAGS);
    writer.put_u16(this_class);
    writer.put_u16(super_class);
    writer.put_u16(1);
    writer.put_u16(interface_class);
    writer.put_u16(1);
    writer.put_member_header(0, pointer_name, pointer_descriptor, 0);
    writer.put_u16((1 + 2 * methods) as u16);
    let mut code: Vec<u8> = Vec::new();
    code.push(0x2a);
    code.push(0xb7);
    push_u16(&mut code, object_init);
    code.push(0x2a);
    code.push(0x1f);
    code.push(0xb5);
    push_u16(&mut code, pointer);
    code.push(0xb1);
    assert(code@ =~= constructor_code());
    writer.put_member_header(0, init_name, init_descriptor, 1);
    writer.put_code(code_name, 3, 3, &code);
    assert(writer.body() =~= body_head(methods as int)) by {
        reveal(body_head);
    }
}

/// Writes the methods of a shim class, one after the other.
pub fn emit_methods(
    writer: &mut ClassAssembler,
    names: &FixedNames,
    this: &Vec<u8>,
    plans: &Vec<MethodPlan>,
)
    requires
        old(writer).count() == method_base(0),
        names.well_formed(),
        this@.len() <= U16_LIMIT,
        plans@.len() <= MAX_METHODS,
        forall|i: int| 0 <= i < plans@.len() ==> layout_fits(#[trigger] plans@[i]@),
    ensures
        final(writer).count() == method_base(plans@.len() as int),
        final(writer).pool() == old(writer).pool() + methods_pool(this@, plans_view(plans@)),
        final(writer).body() == old(writer).body() + methods_body(plans_view(plans@)),
{
    let ghost layouts = plans_view(plans@);
    let ghost pool = writer.pool();
    let ghost body = writer.body();
    let n = plans.len();
    let mut i: usize = 0;
    proof {
        assert(layouts.take(0) =~= Seq::<MethodLayout>::empty());
        assert(pool =~= pool + methods_pool(this@, layouts.take(0)));
        assert(body =~= body + methods_body(layouts.take(0)));
    }
    while i < n
        invariant
            n == plans@.len(),
            n <= MAX_METHODS,
            i <= n,
            layouts == plans_view(plans@),
            names.well_formed(),
            this@.len() <= U16_LIMIT,
            forall|k: int| 0 <= k < plans@.len() ==> layout_fits(#[trigger] plans@[k]@),
            writer.count() == method_base(i as int),
            writer.pool() == pool + methods_pool(this@, layouts.take(i as int)),
            writer.body() == body + methods_body(layouts.take(i as int)),
        decreases n - i,
    {
        let ghost before = layouts.take(i as int);
        let ghost after = layouts.take(i + 1);
        let ghost base = method_base(i as int);
        emit_method(writer, names, this, &plans[i]);
        proof {
            assert(after.drop_last() =~= before);
            assert(after.last() == plans@[i as int]@);
            assert(after.len() - 1 == i);
            assert(methods_pool(this@, after) == methods_pool(this@, before) + method_pool(
                this@,
                after.last(),
                base,
            ));
            assert(methods_body(after) == methods_body(before) + method_body(after.last(), base));
            lemma_grouping(
                pool,
                methods_pool(this@, before),
                method_pool(this@, after.last(), base),
            );
            lemma_grouping(body, methods_body(before), method_body(after.last(), base));
        }
        i += 1;
    }
    assert(layouts.take(n as int) =~= layouts);
}

/// Writes the class file of a shim class, given the names of the class and
/// of its interface as bytes, and its methods.
pub fn emit_class(this: &Vec<u8>, interface: &Vec<u8>, plans: &Vec<MethodPlan>) -> (bytes: Vec<u8>)
    requires
        this@.len() <= U16_LIMIT,
        interface@.len() <= U16_LIMIT,
        plans@.len() <= MAX_METHODS,
        forall|i: int| 0 <= i < plans@.len() ==> layout_fits(#[trigger] plans@[i]@),
    ensures
        bytes@ == class_bytes(this@, interface@, plans_view(plans@)),
{
    let names = FixedNames::new();
    let mut writer = ClassAssembler::new();
    emit_fixed(&mut writer, &names, this, interface, plans.len());
    emit_methods(&mut writer, &names, this, plans);
    let ghost before = writer.body();
    writer.put_u16(0);
    let bytes = writer.into_bytes(0, MAJOR_VERSION);
    proof {
        let layouts = plans_view(plans@);
        assert(writer.body() == (body_head(layouts.len() as int) + methods_body(layouts)) + be16(
            0,
        ));
    }
    bytes
}

/// The position of the first method, at or after `from`, that has type
/// parameters of its own; the number of methods where there is none.
pub open spec fn first_generic(methods: Seq<MethodView>, from: int) -> int
    decreases methods.len() - from,
{
    if from >= methods.len() {
        methods.len() as int
    } else if methods[from].generics.len() > 0 {
        from
    } else {
        first_generic(methods, from + 1)
    }
}

/// A method as a class declares it: by its name and its descriptor. A
/// class cannot declare two methods that agree in both.
pub struct MethodKey {
    pub name: Seq<char>,
    pub descriptor: Seq<char>,
}

/// The method that the shim class of an interface declares at position
/// `k`: first its constructor, which takes the handle; then, for each
/// method of the interface in turn, the native method that the method
/// forwards to, and the method itself.
pub open spec fn declared_method(methods: Seq<MethodView>, k: int) -> MethodKey {
    if k <= 0 {
        MethodKey { name: "<init>"@, descriptor: "(J)V"@ }
    } else if k % 2 == 1 {
        let method = methods[(k - 1) / 2];
        MethodKey { name: native_name(method.name), descriptor: native_descriptor(method) }
    } else {
        let method = methods[(k - 2) / 2];
        MethodKey {
            name: method.name,
            descriptor: method_descriptor(method.argument_tys, method.return_ty),
        }
    }
}

/// All methods that the shim class of an interface declares, in the order
/// in which the class file holds them.
pub open spec fn declared_methods(methods: Seq<MethodView>) -> Seq<MethodKey> {
    Seq::new((1 + 2 * methods.len()) as nat, |k: int| declared_method(methods, k))
}

/// Whether the method at position `at` repeats the name and descriptor of
/// a method before it.
pub open spec fn repeats_earlier(declared: Seq<MethodKey>, at: int) -> bool {
    exists|i: int| 0 <= i < at && #[trigger] declared[i] == declared[at]
}

/// The position of the first method, at or after `from`, that repeats the
/// name and descriptor of a method before it; the number of methods where
/// there is none.
pub open spec fn first_repeat(declared: Seq<MethodKey>, from: int) -> int
    decreases declared.len() - from,
{
    if from >= declared.len() {
        declared.len() as int
    } else if repeats_earlier(declared, from) {
        from
    } else {
        first_repeat(declared, from + 1)
    }
}

/// The position, among the methods of the interface, of the method that a
/// method declared by the shim class at position `k` comes from.
pub open spec fn source_of(k: int) -> int {
    (k - 1) / 2
}

/// Why the first method, at or after `from`, that cannot be written cannot
/// be; `None` where all can.
pub open spec fn first_method_rejection(methods: Seq<MethodView>, from: int) -> Option<
    EncodeErrorKind,
>
    decreases methods.len() - from,
{
    if from >= methods.len() {
        None
    } else if method_rejection(methods[from]) is Some {
        method_rejection(methods[from])
    } else {
        first_method_rejection(methods, from + 1)
    }
}

/// Why the class file of the shim cannot be written, if it cannot: the
/// interface has too many methods, or else the name of the shim or of the
/// interface is too long, or else one of the methods cannot be written.
pub open spec fn encode_rejection(interface: ClassInfoView) -> Option<EncodeErrorKind> {
    if interface.methods.len() > MAX_METHODS {
        Some(EncodeErrorKind::TooManyItems)
    } else if mutf8_bytes(jni_name(shim_class_name(interface.name))).len() > U16_LIMIT
        || mutf8_bytes(jni_name(interface.name)).len() > U16_LIMIT {
        Some(EncodeErrorKind::StringTooLong)
    } else {
        first_method_rejection(interface.methods, 0)
    }
}

/// Why no shim is generated for a description, if none is. The rules are
/// held in this order: the description is of an interface; it extends
/// nothing; none of its methods has type parameters; no two of the methods
/// that the shim class would declare have the same name and descriptor; the
/// class file can be written. A collision is laid to the method of the
/// interface from which the later of the two methods comes.
pub open spec fn rejection(interface: ClassInfoView) -> Option<ShimErrorView> {
    let class = dotted_name(interface.name);
    let span = interface.span;
    if interface.kind == ClassKind::Class {
        Some(ShimErrorView::NotAnInterface { class, span })
    } else if interface.extends.len() > 0 {
        Some(ShimErrorView::Extends { class, extends: dotted_name(interface.extends[0]), span })
    } else if first_generic(interface.methods, 0) < interface.methods.len() {
        Some(
            ShimErrorView::GenericMethod {
                class,
                method: interface.methods[first_generic(interface.methods, 0)].name,
                span,
            },
        )
    } else if first_repeat(declared_methods(interface.methods), 0) < declared_methods(
        interface.methods,
    ).len() {
        Some(
            ShimErrorView::ErasureCollision {
                class,
                method: interface.methods[source_of(
                    first_repeat(declared_methods(interface.methods), 0),
                )].name,
                span,
            },
        )
    } else {
        match encode_rejection(interface) {
            Some(kind) => Some(ShimErrorView::Encode { kind, span }),
            None => None,
        }
    }
}

/// What generating a shim for a description gives: the error that the rules
/// name, or else the name of the shim class and its class file.
pub open spec fn shim_result(
    interface: ClassInfoView,
    result: Result<(DotId, Vec<u8>), ShimError>,
) -> bool {
    match result {
        Ok((name, bytes)) => {
            &&& rejection(interface) is None
            &&& name@ == shim_class_name(interface.name)
            &&& bytes@ == shim_class_bytes(interface)
        },
        Err(e) => rejection(interface) == Some(e@),
    }
}

/// A method as a class declares it.
pub struct DeclaredMethod {
    pub name: String,
    pub descriptor: String,
}

impl View for DeclaredMethod {
    type V = MethodKey;

    open spec fn view(&self) -> MethodKey {
        MethodKey { name: self.name@, descriptor: self.descriptor@ }
    }
}

/// All methods that the shim class of an interface with the given methods
/// declares, in the order in which the class file holds them.
pub fn declare_methods(methods: &Vec<Method>) -> (declared: Vec<DeclaredMethod>)
    ensures
        declared@.len() == 1 + 2 * methods@.len(),
        forall|k: int|
            0 <= k < declared@.len() ==> (#[trigger] declared@[k])@ == declared_method(
                methods_view(methods@),
                k,
            ),
{
    let ghost views = methods_view(methods@);
    let mut declared: Vec<DeclaredMethod> = Vec::new();
    declared.push(
        DeclaredMethod { name: String::from_str("<init>"), descriptor: String::from_str("(J)V") },
    );
    let n = methods.len();
    let mut i: usize = 0;
    while i < n
        invariant
            n == methods@.len(),
            views == methods_view(methods@),
            i <= n,
            declared@.len() == 1 + 2 * i,
            forall|k: int|
                0 <= k < declared@.len() ==> (#[trigger] declared@[k])@ == declared_method(views, k),
        decreases n - i,
    {
        let method = &methods[i];
        assert(views[i as int] == method@);
        let native = DeclaredMethod {
            name: native_method_name(method),
            descriptor: native_method_descriptor(method),
        };
        let own = DeclaredMethod { name: method.name.data.clone(), descriptor: method.descriptor() };
        proof {
            let k = 2 * i + 1;
            assert((k - 1) / 2 == i && k % 2 == 1);
            assert(((k + 1) - 2) / 2 == i && (k + 1) % 2 == 0);
            assert(native@ == declared_method(views, k));
            assert(own@ == declared_method(views, k + 1));
        }
        declared.push(native);
        declared.push(own);
        i += 1;
    }
    declared
}

/// Whether two methods agree in name and descriptor.
fn same_method(a: &DeclaredMethod, b: &DeclaredMethod) -> (same: bool)
    ensures
        same == (a@ == b@),
{
    a.name == b.name && a.descriptor == b.descriptor
}

/// The position, among the methods of the interface, of the first method
/// from which the shim class would get a method that repeats the name and
/// descriptor of one that it declares before, if there is one.
pub fn find_collision(methods: &Vec<Method>) -> (found: Option<usize>)
    ensures
        match found {
            Some(at) => {
                let declared = declared_methods(methods_view(methods@));
                &&& first_repeat(declared, 0) < declared.len()
                &&& at == source_of(first_repeat(declared, 0))
                &&& at < methods@.len()
            },
            None => {
                let declared = declared_methods(methods_view(methods@));
                first_repeat(declared, 0) >= declared.len()
            },
        },
{
    let ghost keys = declared_methods(methods_view(methods@));
    let declared = declare_methods(methods);
    let n = declared.len();
    proof {
        assert forall|k: int| 0 <= k < n implies (#[trigger] declared@[k])@ == keys[k] by {}
    }
    let mut k: usize = 0;
    while k < n
        invariant
            keys == declared_methods(methods_view(methods@)),
            n == declared@.len(),
            n == keys.len(),
            n == 1 + 2 * methods@.len(),
            k <= n,
            forall|e: int| 0 <= e < n ==> (#[trigger] declared@[e])@ == keys[e],
            first_repeat(keys, 0) == first_repeat(keys, k as int),
        decreases n - k,
    {
        let mut e: usize = 0;
        while e < k
            invariant
                keys == declared_methods(methods_view(methods@)),
                n == declared@.len(),
                n == keys.len(),
                n == 1 + 2 * methods@.len(),
                k < n,
                e <= k,
                forall|e: int| 0 <= e < n ==> (#[trigger] declared@[e])@ == keys[e],
                forall|i: int| 0 <= i < e ==> #[trigger] keys[i] != keys[k as int],
                first_repeat(keys, 0) == first_repeat(keys, k as int),
            decreases k - e,
        {
            if same_method(&declared[e], &declared[k]) {
                assert(keys[e as int] == keys[k as int]);
                assert(repeats_earlier(keys, k as int));
                assert(first_repeat(keys, k as int) == k);
                let at: usize = (k - 1) / 2;
                assert(at == source_of(k as int));
                assert(at < methods@.len());
                return Some(at);
            }
            e += 1;
        }
        assert(!repeats_earlier(keys, k as int));
        k += 1;
    }
    None
}

/// The name of the shim class for the interface of the given name.
pub fn shim_name(interface: &DotId) -> (name: DotId)
    ensures
        name@ == shim_class_name(interface@),
{
    let mut class = String::from_str("Impl$");
    let dollar = interface.to_dollar_name();
    class.append(dollar.as_str());
    let name = DotId::duchess().dot(class.as_str());
    assert(name@ =~= shim_class_name(interface@));
    name
}

/// Generates the shim class for an interface: a class that implements the
/// interface, holds a handle to a native value in a field, takes the handle
/// in its constructor, and forwards each method of the interface to a
/// native method named after it, with the arguments of the method in their
/// order and the handle after them.
///
/// Returns the name of the class and its class file. Nothing is written
/// unless the description passes every rule.
#[verifier::loop_isolation(false)]
pub fn generate_interface_shim(interface: &ClassInfo) -> (result: Result<
    (DotId, Vec<u8>),
    ShimError,
>)
    ensures
        shim_result(interface@, result),
{
    let span = interface.span;
    match interface.kind {
        ClassKind::Class => {
            return Err(ShimError::NotAnInterface { class: interface.name.to_dot_name(), span });
        },
        ClassKind::Interface => {},
    }
    if interface.extends.len() > 0 {
        return Err(
            ShimError::Extends {
                class: interface.name.to_dot_name(),
                extends: interface.extends[0].to_dot_name(),
                span,
            },
        );
    }
    let ghost methods = interface@.methods;
    let n = interface.methods.len();
    let mut i: usize = 0;
    while i < n
        invariant
            n == interface.methods@.len(),
            methods == interface@.methods,
            i <= n,
            first_generic(methods, 0) == first_generic(methods, i as int),
        decreases n - i,
    {
        let method = &interface.methods[i];
        assert(methods[i as int] == method@);
        if method.generics.len() > 0 {
            assert(first_generic(methods, i as int) == i);
            return Err(
                ShimError::GenericMethod {
                    class: interface.name.to_dot_name(),
                    method: method.name.data.clone(),
                    span,
                },
            );
        }
        i += 1;
    }
    match find_collision(&interface.methods) {
        Some(at) => {
            assert(methods[at as int] == interface.methods@[at as int]@);
            return Err(
                ShimError::ErasureCollision {
                    class: interface.name.to_dot_name(),
                    method: interface.methods[at].name.data.clone(),
                    span,
                },
            );
        },
        None => {},
    }
    if n > MAX_METHODS {
        return Err(ShimError::Encode { kind: EncodeErrorKind::TooManyItems, span });
    }
    let class_name = shim_name(&interface.name);
    let this_name = class_name.to_jni_name();
    let this = mutf8_encode(this_name.as_str());
    let interface_name = interface.name.to_jni_name();
    let implemented = mutf8_encode(interface_name.as_str());
    if this.len() > U16_LIMIT || implemented.len() > U16_LIMIT {
        return Err(ShimError::Encode { kind: EncodeErrorKind::StringTooLong, span });
    }
    let mut plans: Vec<MethodPlan> = Vec::new();
    let mut i: usize = 0;
    while i < n
        invariant
            n == interface.methods@.len(),
            methods == interface@.methods,
            i <= n,
            first_method_rejection(methods, 0) == first_method_rejection(methods, i as int),
            plans@.len() == i,
            forall|k: int|
                0 <= k < i ==> layout_fits(#[trigger] plans@[k]@) && plans@[k]@ == method_layout(
                    methods[k],
                ),
        decreases n - i,
    {
        assert(methods[i as int] == interface.methods@[i as int]@);
        match plan_method(&interface.methods[i]) {
            Ok(plan) => {
                plans.push(plan);
            },
            Err(kind) => {
                assert(first_method_rejection(methods, i as int) == Some(kind));
                return Err(ShimError::Encode { kind, span });
            },
        }
        i += 1;
    }
    assert(plans_view(plans@) =~= method_layouts(methods));
    let bytes = emit_class(&this, &implemented, &plans);
    Ok((class_name, bytes))
}

/// A description that is of an interface, extends nothing, has no method
/// with type parameters of its own, gives a shim class whose methods differ
/// from one another in name or descriptor, and fits a class file is never
/// rejected: generating its shim gives a class file.
pub proof fn lemma_single_level_interface_is_accepted(interface: ClassInfoView)
    requires
        interface.kind == ClassKind::Interface,
        interface.extends.len() == 0,
        forall|i: int| 0 <= i < interface.methods.len() ==> interface.methods[i].generics.len() == 0,
        forall|i: int, j: int|
            0 <= i < j < declared_methods(interface.methods).len() ==> declared_methods(
                interface.methods,
            )[i] != declared_methods(interface.methods)[j],
        encode_rejection(interface) is None,
    ensures
        rejection(interface) is None,
{
    lemma_no_generic(interface.methods, 0);
    lemma_no_repeat(declared_methods(interface.methods), 0);
}

/// Where no two methods have the same name and descriptor, no method
/// repeats an earlier one.
pub proof fn lemma_no_repeat(declared: Seq<MethodKey>, from: int)
    requires
        0 <= from,
        forall|i: int, j: int| 0 <= i < j < declared.len() ==> declared[i] != declared[j],
    ensures
        first_repeat(declared, from) >= declared.len(),
    decreases declared.len() - from,
{
    if from < declared.len() {
        lemma_no_repeat(declared, from + 1);
    }
}

/// Where no method at or after `from` repeats an earlier one, the methods
/// from `from` on differ from all before them.
pub proof fn lemma_first_repeat(declared: Seq<MethodKey>, from: int)
    requires
        0 <= from,
        first_repeat(declared, from) >= declared.len(),
    ensures
        forall|i: int, j: int|
            0 <= i < j < declared.len() && from <= j ==> declared[i] != declared[j],
    decreases declared.len() - from,
{
    if from < declared.len() {
        lemma_first_repeat(declared, from + 1);
        assert(!repeats_earlier(declared, from));
    }
}

/// The shim class of a description that is accepted declares no method
/// twice: of its constructor, its native methods and the methods of the
/// interface, no two agree in both name and descriptor. These are the
/// names and descriptors that the class file holds for its methods.
pub proof fn lemma_accepted_class_declares_no_method_twice(interface: ClassInfoView)
    requires
        rejection(interface) is None,
    ensures
        declared_methods(interface.methods).len() == 1 + 2 * interface.methods.len(),
        forall|i: int, j: int|
            0 <= i < j < declared_methods(interface.methods).len() ==> declared_methods(
                interface.methods,
            )[i] != declared_methods(interface.methods)[j],
        forall|i: int|
            0 <= i < interface.methods.len() ==> {
                let layout = #[trigger] method_layout(interface.methods[i]);
                let declared = declared_methods(interface.methods);
                &&& layout.native_name == mutf8_bytes(declared[2 * i + 1].name)
                &&& layout.native_descriptor == mutf8_bytes(declared[2 * i + 1].descriptor)
                &&& layout.name == mutf8_bytes(declared[2 * i + 2].name)
                &&& layout.descriptor == mutf8_bytes(declared[2 * i + 2].descriptor)
            },
{
    lemma_first_repeat(declared_methods(interface.methods), 0);
    assert forall|i: int| 0 <= i < interface.methods.len() implies {
        let layout = #[trigger] method_layout(interface.methods[i]);
        let declared = declared_methods(interface.methods);
        &&& layout.native_name == mutf8_bytes(declared[2 * i + 1].name)
        &&& layout.native_descriptor == mutf8_bytes(declared[2 * i + 1].descriptor)
        &&& layout.name == mutf8_bytes(declared[2 * i + 2].name)
        &&& layout.descriptor == mutf8_bytes(declared[2 * i + 2].descriptor)
    } by {
        assert(((2 * i + 1) - 1) / 2 == i && (2 * i + 1) % 2 == 1);
        assert(((2 * i + 2) - 2) / 2 == i && (2 * i + 2) % 2 == 0);
    }
}

/// Where no method at or after `from` has type parameters, there is no
/// first such method.
pub proof fn lemma_no_generic(methods: Seq<MethodView>, from: int)
    requires
        0 <= from,
        forall|i: int| from <= i < methods.len() ==> methods[i].generics.len() == 0,
    ensures
        first_generic(methods, from) >= methods.len(),
    decreases methods.len() - from,
{
    if from < methods.len() {
        lemma_no_generic(methods, from + 1);
    }
}

/// The first method with type parameters, where there is one, is a method
/// with type parameters, and no method before it has any.
pub proof fn lemma_first_generic(methods: Seq<MethodView>, from: int, at: int)
    requires
        0 <= from <= at < methods.len(),
        methods[at].generics.len() > 0,
    ensures
        from <= first_generic(methods, from) <= at,
        methods[first_generic(methods, from)].generics.len() > 0,
    decreases at - from,
{
    if methods[from].generics.len() == 0 {
        lemma_first_generic(methods, from + 1, at);
    }
}

/// A description of a class, of an interface that extends another, or of
/// an interface with a method that has type parameters of its own is
/// rejected, and the error names the first of these rules that it breaks.
pub proof fn lemma_broken_rule_is_named(interface: ClassInfoView)
    requires
        interface.kind == ClassKind::Class || interface.extends.len() > 0 || (exists|i: int|
            0 <= i < interface.methods.len() && interface.methods[i].generics.len() > 0),
    ensures
        interface.kind == ClassKind::Class ==> rejection(interface) == Some(
            (ShimErrorView::NotAnInterface {
                class: dotted_name(interface.name),
                span: interface.span,
            }),
        ),
        interface.kind != ClassKind::Class && interface.extends.len() > 0 ==> rejection(interface)
            == Some(
            (ShimErrorView::Extends {
                class: dotted_name(interface.name),
                extends: dotted_name(interface.extends[0]),
                span: interface.span,
            }),
        ),
        interface.kind != ClassKind::Class && interface.extends.len() == 0 ==> exists|i: int|
            0 <= i < interface.methods.len() && interface.methods[i].generics.len() > 0
                && rejection(interface) == Some(
                (ShimErrorView::GenericMethod {
                    class: dotted_name(interface.name),
                    method: interface.methods[i].name,
                    span: interface.span,
                }),
            ),
{
    if interface.kind != ClassKind::Class && interface.extends.len() == 0 {
        let at = choose|i: int|
            0 <= i < interface.methods.len() && interface.methods[i].generics.len() > 0;
        lemma_first_generic(interface.methods, 0, at);
    }
}

/// Generating a shim twice for the same description gives the same outcome:
/// the same error, or the same name and the same bytes.
pub proof fn lemma_generation_is_deterministic(
    first: ClassInfo,
    second: ClassInfo,
    first_result: Result<(DotId, Vec<u8>), ShimError>,
    second_result: Result<(DotId, Vec<u8>), ShimError>,
)
    requires
        first@ == second@,
        shim_result(first@, first_result),
        shim_result(second@, second_result),
    ensures
        first_result is Ok <==> second_result is Ok,
        first_result is Ok ==> first_result->Ok_0.0@ == second_result->Ok_0.0@,
        first_result is Ok ==> first_result->Ok_0.1@ == second_result->Ok_0.1@,
        first_result is Err ==> first_result->Err_0@ == second_result->Err_0@,
{
}

/// The constructor of every shim class has the descriptor of a method that
/// takes the handle and returns nothing. This is the descriptor by which
/// the constructor is looked up when a native value is wrapped.
pub proof fn lemma_constructor_descriptor()
    ensures
        method_descriptor(seq![handle_type()], None) == "(J)V"@,
        crate::class_definition::constructor_descriptor() == "(J)V"@,
{
    reveal_strlit("(J)V");
    let args = seq![handle_type()];
    assert(args.drop_last() =~= Seq::<TypeView>::empty());
    assert(types_descriptor(args.drop_last()) =~= Seq::<char>::empty());
    assert(types_descriptor(args) =~= seq!['J']);
    assert(method_descriptor(args, None) =~= "(J)V"@);
}

} // verus!
