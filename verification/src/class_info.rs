//! Descriptions of managed classes and interfaces, and the descriptors that
//! the managed runtime derives from them.

use crate::text::{each_followed_by, joined, push_char};
use vstd::prelude::*;
use vstd::string::*;

verus! {

/// A place in a source file, kept for diagnostics.
#[derive(Clone, Copy, Debug, PartialEq, Eq, Structural)]
pub struct Span {
    pub line: u32,
    pub column: u32,
}

/// One identifier of the managed runtime.
#[derive(Clone, Debug)]
pub struct Id {
    pub data: String,
}

impl View for Id {
    type V = Seq<char>;

    open spec fn view(&self) -> Seq<char> {
        self.data@
    }
}

impl Id {
    /// The identifier with the given name.
    pub fn new(name: &str) -> (id: Id)
        ensures
            id@ == name@,
    {
        Id { data: String::from_str(name) }
    }

    /// The name of this identifier.
    pub fn as_str(&self) -> (s: &str)
        ensures
            s@ == self@,
    {
        self.data.as_str()
    }
}

/// The views of a list of identifiers, in order.
pub open spec fn ids_view(ids: Seq<Id>) -> Seq<Seq<char>> {
    Seq::new(ids.len(), |i: int| ids[i]@)
}

/// A qualified name: the identifiers of a package followed by the identifier
/// of a class.
#[derive(Clone, Debug)]
pub struct DotId {
    pub package: Vec<Id>,
    pub class: Id,
}

impl View for DotId {
    type V = Seq<Seq<char>>;

    /// All identifiers of the name in order; never empty.
    open spec fn view(&self) -> Seq<Seq<char>> {
        ids_view(self.package@).push(self.class@)
    }
}

/// The dotted form of a qualified name, as written in source.
pub open spec fn dotted_name(name: Seq<Seq<char>>) -> Seq<char> {
    joined(name, '.')
}

/// The slash-qualified form of a qualified name, as class files hold it.
pub open spec fn jni_name(name: Seq<Seq<char>>) -> Seq<char> {
    joined(name, '/')
}

/// The form of a qualified name that can stand inside one identifier.
pub open spec fn dollar_name(name: Seq<Seq<char>>) -> Seq<char> {
    joined(name, '$')
}

/// The characters `java`.
pub open spec fn java_chars() -> Seq<char> {
    seq!['j', 'a', 'v', 'a']
}

/// The characters `lang`.
pub open spec fn lang_chars() -> Seq<char> {
    seq!['l', 'a', 'n', 'g']
}

/// The characters `Object`.
pub open spec fn object_chars() -> Seq<char> {
    seq!['O', 'b', 'j', 'e', 'c', 't']
}

/// The characters `duchess`.
pub open spec fn duchess_chars() -> Seq<char> {
    seq!['d', 'u', 'c', 'h', 'e', 's', 's']
}

/// The qualified name of the root class of the managed runtime.
pub open spec fn object_name() -> Seq<Seq<char>> {
    seq![java_chars(), lang_chars(), object_chars()]
}

impl DotId {
    /// The name of `class` in the package of the given identifiers.
    pub fn new(package: Vec<Id>, class: Id) -> (name: DotId)
        ensures
            name@ == ids_view(package@).push(class@),
    {
        DotId { package, class }
    }

    /// The name of the package that generated classes live in.
    pub fn duchess() -> (name: DotId)
        ensures
            name@ == seq![duchess_chars()],
    {
        proof {
            reveal_strlit("duchess");
        }
        let name = DotId { package: Vec::new(), class: Id::new("duchess") };
        assert(name.class@ =~= duchess_chars());
        assert(name@ =~= seq![duchess_chars()]);
        name
    }

    /// The name of the root class, `java.lang.Object`.
    pub fn object() -> (name: DotId)
        ensures
            name@ == object_name(),
    {
        proof {
            reveal_strlit("java");
            reveal_strlit("lang");
            reveal_strlit("Object");
        }
        let mut package: Vec<Id> = Vec::new();
        package.push(Id::new("java"));
        package.push(Id::new("lang"));
        let name = DotId { package, class: Id::new("Object") };
        assert(name.package@[0]@ =~= java_chars());
        assert(name.package@[1]@ =~= lang_chars());
        assert(name.class@ =~= object_chars());
        assert(name@ =~= object_name());
        name
    }

    /// This name taken as a package, with `class` inside it.
    pub fn dot(self, class: &str) -> (name: DotId)
        ensures
            name@ == self@.push(class@),
    {
        let DotId { package, class: last } = self;
        let mut package = package;
        let ghost before = package@;
        package.push(last);
        let name = DotId { package, class: Id::new(class) };
        assert(ids_view(name.package@) =~= ids_view(before).push(last@));
        name
    }

    /// The last identifier: the class without its package.
    pub fn class_name(&self) -> (id: &Id)
        ensures
            id@ == self@.last(),
    {
        &self.class
    }

    /// The package and the class of this name.
    pub fn split(&self) -> (parts: (&Vec<Id>, &Id))
        ensures
            ids_view(parts.0@) == self@.drop_last(),
            parts.1@ == self@.last(),
    {
        assert(self@.drop_last() =~= ids_view(self.package@));
        (&self.package, &self.class)
    }

    /// The identifiers of this name with `sep` between them.
    fn join_with(&self, sep: char) -> (s: String)
        ensures
            s@ == joined(self@, sep),
    {
        let mut s = String::new();
        let n = self.package.len();
        let mut i: usize = 0;
        while i < n
            invariant
                n == self.package@.len(),
                i <= n,
                s@ == each_followed_by(ids_view(self.package@).take(i as int), sep),
            decreases n - i,
        {
            let ghost prefix = ids_view(self.package@).take(i as int);
            let ghost next = ids_view(self.package@).take(i + 1);
            s.append(self.package[i].as_str());
            push_char(&mut s, sep);
            proof {
                assert(next.drop_last() =~= prefix);
                assert(next.last() == self.package@[i as int]@);
                assert(s@ =~= each_followed_by(prefix, sep) + next.last().push(sep));
            }
            i += 1;
        }
        s.append(self.class.as_str());
        proof {
            assert(ids_view(self.package@).take(n as int) =~= ids_view(self.package@));
            assert(self@.drop_last() =~= ids_view(self.package@));
        }
        s
    }

    /// The slash-qualified form, as class files hold it.
    pub fn to_jni_name(&self) -> (s: String)
        ensures
            s@ == jni_name(self@),
    {
        self.join_with('/')
    }

    /// The form that can stand inside one identifier.
    pub fn to_dollar_name(&self) -> (s: String)
        ensures
            s@ == dollar_name(self@),
    {
        self.join_with('$')
    }

    /// The dotted form, as written in source.
    pub fn to_dot_name(&self) -> (s: String)
        ensures
            s@ == dotted_name(self@),
    {
        self.join_with('.')
    }
}

/// The views of a list of qualified names, in order.
pub open spec fn names_view(names: Seq<DotId>) -> Seq<Seq<Seq<char>>> {
    Seq::new(names.len(), |i: int| names[i]@)
}

/// The primitive types of the managed runtime.
#[derive(Clone, Copy, Debug, PartialEq, Eq, Structural)]
pub enum ScalarType {
    Int,
    Long,
    Short,
    Byte,
    F64,
    F32,
    Boolean,
    Char,
}

/// The one letter that stands for a primitive type in a descriptor.
pub open spec fn scalar_letter(ty: ScalarType) -> char {
    match ty {
        ScalarType::Int => 'I',
        ScalarType::Long => 'J',
        ScalarType::Short => 'S',
        ScalarType::Byte => 'B',
        ScalarType::F64 => 'D',
        ScalarType::F32 => 'F',
        ScalarType::Boolean => 'Z',
        ScalarType::Char => 'C',
    }
}

/// How many local-variable slots a value of a primitive type takes.
pub open spec fn scalar_slots(ty: ScalarType) -> nat {
    match ty {
        ScalarType::Long | ScalarType::F64 => 2,
        _ => 1,
    }
}

impl ScalarType {
    /// The letter of this type in descriptors.
    pub fn letter(self) -> (c: char)
        ensures
            c == scalar_letter(self),
    {
        match self {
            ScalarType::Int => 'I',
            ScalarType::Long => 'J',
            ScalarType::Short => 'S',
            ScalarType::Byte => 'B',
            ScalarType::F64 => 'D',
            ScalarType::F32 => 'F',
            ScalarType::Boolean => 'Z',
            ScalarType::Char => 'C',
        }
    }

    /// The descriptor of this type: its letter alone.
    pub fn descriptor(self) -> (s: String)
        ensures
            s@ == seq![scalar_letter(self)],
    {
        let mut s = String::new();
        push_char(&mut s, self.letter());
        assert(s@ =~= seq![scalar_letter(self)]);
        s
    }

    /// The number of local-variable slots of a value of this type.
    pub fn slots(self) -> (n: u16)
        ensures
            n == scalar_slots(self),
    {
        match self {
            ScalarType::Long | ScalarType::F64 => 2,
            _ => 1,
        }
    }
}

/// A reference type of the managed runtime.
#[derive(Debug)]
pub enum RefType {
    /// A class or interface, by its qualified name.
    Class(DotId),
    /// An array of the given element type.
    Array(Box<Type>),
    /// A type parameter; it is erased to the root class.
    TypeParameter(Id),
}

/// A type of the managed runtime.
#[derive(Debug)]
pub enum Type {
    Ref(RefType),
    Scalar(ScalarType),
    /// A variable number of arguments of the given type, passed as an array.
    Repeat(Box<Type>),
}

/// What a type is, in mathematical terms.
pub enum TypeView {
    Scalar(ScalarType),
    Class(Seq<Seq<char>>),
    Array(Box<TypeView>),
    TypeParameter(Seq<char>),
    Repeat(Box<TypeView>),
}

/// The view of a type.
pub open spec fn type_view(ty: Type) -> TypeView
    decreases ty,
{
    match ty {
        Type::Ref(r) => ref_view(r),
        Type::Scalar(s) => TypeView::Scalar(s),
        Type::Repeat(e) => TypeView::Repeat(Box::new(type_view(*e))),
    }
}

/// The view of a reference type.
pub open spec fn ref_view(ty: RefType) -> TypeView
    decreases ty,
{
    match ty {
        RefType::Class(name) => TypeView::Class(name@),
        RefType::Array(e) => TypeView::Array(Box::new(type_view(*e))),
        RefType::TypeParameter(id) => TypeView::TypeParameter(id@),
    }
}

impl View for Type {
    type V = TypeView;

    open spec fn view(&self) -> TypeView {
        type_view(*self)
    }
}

impl View for RefType {
    type V = TypeView;

    open spec fn view(&self) -> TypeView {
        ref_view(*self)
    }
}

/// The views of a list of types, in order.
pub open spec fn types_view(tys: Seq<Type>) -> Seq<TypeView> {
    Seq::new(tys.len(), |i: int| tys[i]@)
}

/// The descriptor of a type: the letter of a primitive type; `L`, the
/// slash-qualified name and `;` for a class; `[` before the element's
/// descriptor for an array. A type parameter is erased to the root class.
pub open spec fn type_descriptor(ty: TypeView) -> Seq<char>
    decreases ty,
{
    match ty {
        TypeView::Scalar(s) => seq![scalar_letter(s)],
        TypeView::Class(name) => seq!['L'] + jni_name(name) + seq![';'],
        TypeView::Array(e) => seq!['['] + type_descriptor(*e),
        TypeView::TypeParameter(_) => seq!['L'] + jni_name(object_name()) + seq![';'],
        TypeView::Repeat(e) => seq!['['] + type_descriptor(*e),
    }
}

/// The number of local-variable slots that a value of a type takes: two for
/// the wide primitive types, one for everything else.
pub open spec fn type_slots(ty: TypeView) -> nat {
    match ty {
        TypeView::Scalar(s) => scalar_slots(s),
        _ => 1,
    }
}

/// The descriptors of the types laid end to end.
pub open spec fn types_descriptor(tys: Seq<TypeView>) -> Seq<char>
    decreases tys.len(),
{
    if tys.len() == 0 {
        Seq::empty()
    } else {
        types_descriptor(tys.drop_last()) + type_descriptor(tys.last())
    }
}

/// The descriptor of what a method returns: `V` where it returns nothing.
pub open spec fn return_descriptor(ty: Option<TypeView>) -> Seq<char> {
    match ty {
        Some(t) => type_descriptor(t),
        None => seq!['V'],
    }
}

/// The descriptor of a method: the descriptors of its arguments in round
/// brackets, then the descriptor of what it returns.
pub open spec fn method_descriptor(args: Seq<TypeView>, ret: Option<TypeView>) -> Seq<char> {
    seq!['('] + types_descriptor(args) + seq![')'] + return_descriptor(ret)
}

impl RefType {
    /// Appends the descriptor of this type to `out`.
    pub fn push_descriptor(&self, out: &mut String)
        ensures
            final(out)@ == old(out)@ + type_descriptor(self@),
        decreases self,
    {
        match self {
            RefType::Class(name) => {
                push_char(out, 'L');
                let jni = name.to_jni_name();
                out.append(jni.as_str());
                push_char(out, ';');
                assert(out@ =~= old(out)@ + type_descriptor(self@));
            },
            RefType::Array(e) => {
                push_char(out, '[');
                e.push_descriptor(out);
                assert(out@ =~= old(out)@ + type_descriptor(self@));
            },
            RefType::TypeParameter(_) => {
                push_char(out, 'L');
                let jni = DotId::object().to_jni_name();
                out.append(jni.as_str());
                push_char(out, ';');
                assert(out@ =~= old(out)@ + type_descriptor(self@));
            },
        }
    }
}

impl Type {
    /// Appends the descriptor of this type to `out`.
    pub fn push_descriptor(&self, out: &mut String)
        ensures
            final(out)@ == old(out)@ + type_descriptor(self@),
        decreases self,
    {
        match self {
            Type::Ref(r) => {
                r.push_descriptor(out);
            },
            Type::Scalar(s) => {
                push_char(out, s.letter());
                assert(out@ =~= old(out)@ + type_descriptor(self@));
            },
            Type::Repeat(e) => {
                push_char(out, '[');
                e.push_descriptor(out);
                assert(out@ =~= old(out)@ + type_descriptor(self@));
            },
        }
    }

    /// The descriptor of this type.
    pub fn descriptor(&self) -> (s: String)
        ensures
            s@ == type_descriptor(self@),
    {
        let mut s = String::new();
        self.push_descriptor(&mut s);
        assert(s@ =~= type_descriptor(self@));
        s
    }

    /// The number of local-variable slots of a value of this type.
    pub fn slots(&self) -> (n: u16)
        ensures
            n == type_slots(self@),
    {
        match self {
            Type::Scalar(s) => s.slots(),
            Type::Ref(r) => {
                assert(type_slots(ref_view(*r)) == 1);
                1
            },
            Type::Repeat(_) => 1,
        }
    }
}

/// One method of a class or interface.
#[derive(Debug)]
pub struct Method {
    pub name: Id,
    /// The names of the method's own type parameters.
    pub generics: Vec<Id>,
    pub argument_tys: Vec<Type>,
    /// What the method returns; `None` where it returns nothing.
    pub return_ty: Option<Type>,
}

/// What a method is, in mathematical terms.
pub struct MethodView {
    pub name: Seq<char>,
    pub generics: Seq<Seq<char>>,
    pub argument_tys: Seq<TypeView>,
    pub return_ty: Option<TypeView>,
}

/// The view of what a method returns.
pub open spec fn return_view(ty: Option<Type>) -> Option<TypeView> {
    match ty {
        Some(t) => Some(t@),
        None => None,
    }
}

impl View for Method {
    type V = MethodView;

    open spec fn view(&self) -> MethodView {
        MethodView {
            name: self.name@,
            generics: ids_view(self.generics@),
            argument_tys: types_view(self.argument_tys@),
            return_ty: return_view(self.return_ty),
        }
    }
}

/// Appends the descriptors of the types, in order, to `out`.
pub fn push_types_descriptor(tys: &Vec<Type>, out: &mut String)
    ensures
        final(out)@ == old(out)@ + types_descriptor(types_view(tys@)),
{
    let n = tys.len();
    let mut i: usize = 0;
    assert(out@ =~= old(out)@ + types_descriptor(types_view(tys@).take(0)));
    while i < n
        invariant
            n == tys@.len(),
            i <= n,
            out@ == old(out)@ + types_descriptor(types_view(tys@).take(i as int)),
        decreases n - i,
    {
        let ghost prefix = types_view(tys@).take(i as int);
        let ghost next = types_view(tys@).take(i + 1);
        tys[i].push_descriptor(out);
        proof {
            assert(next.drop_last() =~= prefix);
            assert(next.last() == tys@[i as int]@);
            assert(out@ =~= old(out)@ + types_descriptor(next));
        }
        i += 1;
    }
    proof {
        assert(types_view(tys@).take(n as int) =~= types_view(tys@));
    }
}

/// Appends the descriptor of what a method returns to `out`.
pub fn push_return_descriptor(ty: &Option<Type>, out: &mut String)
    ensures
        final(out)@ == old(out)@ + return_descriptor(return_view(*ty)),
{
    match ty {
        Some(t) => {
            t.push_descriptor(out);
        },
        None => {
            push_char(out, 'V');
            assert(out@ =~= old(out)@ + return_descriptor(return_view(*ty)));
        },
    }
}

impl Method {
    /// The descriptor of a method with the given argument and return types.
    pub fn descriptor_from_types(argument_tys: &Vec<Type>, return_ty: &Option<Type>) -> (s: String)
        ensures
            s@ == method_descriptor(types_view(argument_tys@), return_view(*return_ty)),
    {
        let mut s = String::new();
        push_char(&mut s, '(');
        push_types_descriptor(argument_tys, &mut s);
        push_char(&mut s, ')');
        push_return_descriptor(return_ty, &mut s);
        assert(s@ =~= method_descriptor(types_view(argument_tys@), return_view(*return_ty)));
        s
    }

    /// The descriptor of this method.
    pub fn descriptor(&self) -> (s: String)
        ensures
            s@ == method_descriptor(self@.argument_tys, self@.return_ty),
    {
        Method::descriptor_from_types(&self.argument_tys, &self.return_ty)
    }
}

/// Whether a description is of a class or of an interface.
#[derive(Clone, Copy, Debug, PartialEq, Eq, Structural)]
pub enum ClassKind {
    Class,
    Interface,
}

/// The description of one class or interface of the managed runtime.
#[derive(Debug)]
pub struct ClassInfo {
    /// Where the description was written.
    pub span: Span,
    pub name: DotId,
    pub kind: ClassKind,
    /// The supertypes that the description declares.
    pub extends: Vec<DotId>,
    pub methods: Vec<Method>,
}

/// What a description is, in mathematical terms.
pub struct ClassInfoView {
    pub span: Span,
    pub name: Seq<Seq<char>>,
    pub kind: ClassKind,
    pub extends: Seq<Seq<Seq<char>>>,
    pub methods: Seq<MethodView>,
}

/// The views of a list of methods, in order.
pub open spec fn methods_view(methods: Seq<Method>) -> Seq<MethodView> {
    Seq::new(methods.len(), |i: int| methods[i]@)
}

impl View for ClassInfo {
    type V = ClassInfoView;

    open spec fn view(&self) -> ClassInfoView {
        ClassInfoView {
            span: self.span,
            name: self.name@,
            kind: self.kind,
            extends: names_view(self.extends@),
            methods: methods_view(self.methods@),
        }
    }
}

} // verus!
