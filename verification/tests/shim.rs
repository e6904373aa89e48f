use duchess::class_info::{ClassInfo, ClassKind, DotId, Id, Method, RefType, ScalarType, Span, Type};
use duchess::shim::{generate_interface_shim, native_methods, EncodeErrorKind, ShimError};
use noak::error::EncodeError;
use noak::reader::cpool::value;
use noak::reader::{AttributeContent, Class};
use noak::writer::{ClassWriter, FieldRef, MethodRef};
use noak::{AccessFlags, Version};

fn ids(parts: &[&str]) -> Vec<Id> {
    parts.iter().map(|p| Id::new(p)).collect()
}

fn name(parts: &[&str]) -> DotId {
    let (class, package) = parts.split_last().unwrap();
    DotId::new(ids(package), Id::new(class))
}

fn class_ref(parts: &[&str]) -> Type {
    Type::Ref(RefType::Class(name(parts)))
}

fn string() -> Type {
    class_ref(&["java", "lang", "String"])
}

fn method(method_name: &str, argument_tys: Vec<Type>, return_ty: Option<Type>) -> Method {
    Method { name: Id::new(method_name), generics: vec![], argument_tys, return_ty }
}

fn interface(parts: &[&str], methods: Vec<Method>) -> ClassInfo {
    ClassInfo {
        span: Span { line: 3, column: 7 },
        name: name(parts),
        kind: ClassKind::Interface,
        extends: vec![],
        methods,
    }
}

fn greeter() -> ClassInfo {
    interface(&["Greeter"], vec![method("greet", vec![string()], Some(string()))])
}

#[derive(Clone, Copy)]
enum Load {
    A(u8),
    I(u8),
    L(u8),
    F(u8),
    D(u8),
}

#[derive(Clone, Copy)]
enum Ret {
    Void,
    A,
    I,
    L,
    F,
    D,
}

struct Expected {
    name: &'static str,
    descriptor: &'static str,
    native_descriptor: &'static str,
    loads: Vec<Load>,
    ret: Ret,
    slots: u16,
}

/// The class that the generator is to write, written with noak's writer.
fn with_noak(this: &str, implemented: &str, methods: &[Expected]) -> Result<Vec<u8>, EncodeError> {
    ClassWriter::new()
        .version(Version::V15)?
        .access_flags(AccessFlags::STATIC | AccessFlags::FINAL)?
        .this_class(this)?
        .super_class("java/lang/Object")?
        .interfaces(|b| {
            b.begin(|w| w.interface(implemented))?;
            Ok(())
        })?
        .fields(|b| {
            b.begin(|w| {
                w.access_flags(AccessFlags::empty())?
                    .name("nativePointer")?
                    .descriptor("J")?
                    .attributes(|_| Ok(()))
            })?;
            Ok(())
        })?
        .methods(|b| {
            b.begin(|w| {
                w.access_flags(AccessFlags::empty())?.name("<init>")?.descriptor("(J)V")?.attributes(
                    |w| {
                        w.begin(|w| {
                            w.code(|w| {
                                w.max_stack(3)?
                                    .max_locals(3)?
                                    .instructions(|w| {
                                        w.aload0()?.invokespecial(MethodRef::by(
                                            "java/lang/Object",
                                            ("<init>", "()V"),
                                        ))?;
                                        w.aload0()?
                                            .lload1()?
                                            .putfield(FieldRef::by(this, ("nativePointer", "J")))?;
                                        w.return_()?;
                                        Ok(())
                                    })?
                                    .exceptions(|_| Ok(()))?
                                    .attributes(|_| Ok(()))
                            })
                        })?;
                        Ok(())
                    },
                )
            })?;
            for m in methods {
                let native_name = format!("native${}", m.name);
                b.begin(|w| {
                    w.access_flags(AccessFlags::NATIVE)?
                        .name(native_name.as_str())?
                        .descriptor(m.native_descriptor)?
                        .attributes(|_| Ok(()))
                })?
                .begin(|w| {
                    w.access_flags(AccessFlags::PUBLIC)?.name(m.name)?.descriptor(m.descriptor)?.attributes(
                        |w| {
                            w.begin(|w| {
                                w.code(|w| {
                                    w.max_stack(m.slots + 3)?
                                        .max_locals(m.slots + 1)?
                                        .instructions(|w| {
                                            w.aload0()?;
                                            for load in &m.loads {
                                                match *load {
                                                    Load::A(0) => w.aload0()?,
                                                    Load::A(1) => w.aload1()?,
                                                    Load::A(2) => w.aload2()?,
                                                    Load::A(3) => w.aload3()?,
                                                    Load::A(i) => w.aload(i)?,
                                                    Load::I(0) => w.iload0()?,
                                                    Load::I(1) => w.iload1()?,
                                                    Load::I(2) => w.iload2()?,
                                                    Load::I(3) => w.iload3()?,
                                                    Load::I(i) => w.iload(i)?,
                                                    Load::L(i) => w.lload(i)?,
                                                    Load::F(i) => w.fload(i)?,
                                                    Load::D(i) => w.dload(i)?,
                                                };
                                            }
                                            w.aload0()?;
                                            w.getfield(FieldRef::by(this, ("nativePointer", "J")))?;
                                            w.invokevirtual(MethodRef::by(
                                                this,
                                                (native_name.as_str(), m.native_descriptor),
                                            ))?;
                                            match m.ret {
                                                Ret::Void => w.return_()?,
                                                Ret::A => w.areturn()?,
                                                Ret::I => w.ireturn()?,
                                                Ret::L => w.lreturn()?,
                                                Ret::F => w.freturn()?,
                                                Ret::D => w.dreturn()?,
                                            };
                                            Ok(())
                                        })?
                                        .exceptions(|_| Ok(()))?
                                        .attributes(|_| Ok(()))
                                })
                            })?;
                            Ok(())
                        },
                    )
                })?;
            }
            Ok(())
        })?
        .attributes(|_| Ok(()))?
        .into_bytes()
}

fn greet_expected() -> Expected {
    Expected {
        name: "greet",
        descriptor: "(Ljava/lang/String;)Ljava/lang/String;",
        native_descriptor: "(Ljava/lang/String;J)Ljava/lang/String;",
        loads: vec![Load::A(1)],
        ret: Ret::A,
        slots: 1,
    }
}

#[test]
fn greeter_shim_is_named_after_the_interface() {
    let (class_name, _) = generate_interface_shim(&greeter()).unwrap();
    assert_eq!(class_name.to_dot_name(), "duchess.Impl$Greeter");
    assert_eq!(class_name.to_jni_name(), "duchess/Impl$Greeter");
}

#[test]
fn shim_name_mangles_the_package_of_the_interface() {
    let described = interface(&["callback", "GetName"], vec![]);
    let (class_name, _) = generate_interface_shim(&described).unwrap();
    assert_eq!(class_name.to_dot_name(), "duchess.Impl$callback$GetName");
}

#[test]
fn greeter_shim_equals_what_noak_writes() {
    let (_, bytes) = generate_interface_shim(&greeter()).unwrap();
    let expected = with_noak("duchess/Impl$Greeter", "Greeter", &[greet_expected()]).unwrap();
    assert_eq!(bytes, expected);
}

#[test]
fn shim_without_methods_equals_what_noak_writes() {
    let described = interface(&["callback", "Marker"], vec![]);
    let (_, bytes) = generate_interface_shim(&described).unwrap();
    let expected = with_noak("duchess/Impl$callback$Marker", "callback/Marker", &[]).unwrap();
    assert_eq!(bytes, expected);
}

#[test]
fn shim_with_every_kind_of_argument_equals_what_noak_writes() {
    let described = interface(
        &["p", "Wide"],
        vec![
            method(
                "mix",
                vec![
                    Type::Scalar(ScalarType::Int),
                    Type::Scalar(ScalarType::Long),
                    Type::Scalar(ScalarType::F64),
                    Type::Scalar(ScalarType::F32),
                    string(),
                    Type::Scalar(ScalarType::Boolean),
                    Type::Repeat(Box::new(Type::Scalar(ScalarType::Byte))),
                ],
                Some(Type::Scalar(ScalarType::Long)),
            ),
            method("small", vec![Type::Scalar(ScalarType::Char)], Some(Type::Scalar(ScalarType::Short))),
            method(
                "halves",
                vec![Type::Ref(RefType::Array(Box::new(Type::Scalar(ScalarType::Int))))],
                Some(Type::Scalar(ScalarType::F64)),
            ),
            method(
                "erased",
                vec![Type::Ref(RefType::TypeParameter(Id::new("T")))],
                Some(Type::Scalar(ScalarType::F32)),
            ),
            method("nothing", vec![], None),
        ],
    );
    let (_, bytes) = generate_interface_shim(&described).unwrap();
    let expected = with_noak(
        "duchess/Impl$p$Wide",
        "p/Wide",
        &[
            Expected {
                name: "mix",
                descriptor: "(IJDFLjava/lang/String;Z[B)J",
                native_descriptor: "(IJDFLjava/lang/String;Z[BJ)J",
                loads: vec![
                    Load::I(1),
                    Load::L(2),
                    Load::D(4),
                    Load::F(6),
                    Load::A(7),
                    Load::I(8),
                    Load::A(9),
                ],
                ret: Ret::L,
                slots: 9,
            },
            Expected {
                name: "small",
                descriptor: "(C)S",
                native_descriptor: "(CJ)S",
                loads: vec![Load::I(1)],
                ret: Ret::I,
                slots: 1,
            },
            Expected {
                name: "halves",
                descriptor: "([I)D",
                native_descriptor: "([IJ)D",
                loads: vec![Load::A(1)],
                ret: Ret::D,
                slots: 1,
            },
            Expected {
                name: "erased",
                descriptor: "(Ljava/lang/Object;)F",
                native_descriptor: "(Ljava/lang/Object;J)F",
                loads: vec![Load::A(1)],
                ret: Ret::F,
                slots: 1,
            },
            Expected {
                name: "nothing",
                descriptor: "()V",
                native_descriptor: "(J)V",
                loads: vec![],
                ret: Ret::Void,
                slots: 0,
            },
        ],
    )
    .unwrap();
    assert_eq!(bytes, expected);
}

#[test]
fn greeter_shim_starts_with_the_header_of_a_class_file() {
    let (_, bytes) = generate_interface_shim(&greeter()).unwrap();
    // magic, minor 0, major 59, and 23 + 17 constants plus one
    assert_eq!(&bytes[..10], &[0xCA, 0xFE, 0xBA, 0xBE, 0, 0, 0, 59, 0, 41]);
    // the first constant is the name of the class
    assert_eq!(&bytes[10..13], &[1, 0, 20]);
    assert_eq!(&bytes[13..33], "duchess/Impl$Greeter".as_bytes());
    // the class file ends with the count of its attributes
    assert_eq!(&bytes[bytes.len() - 2..], &[0, 0]);
}

#[test]
fn greeter_shim_is_read_back_as_a_class_that_implements_greeter() {
    let (_, bytes) = generate_interface_shim(&greeter()).unwrap();
    let class = Class::new(&bytes).unwrap();
    assert_eq!(class.version(), Version::V15);
    let pool = class.pool();
    let this: value::Class = pool.retrieve(class.this_class()).unwrap();
    assert_eq!(this.name.to_str(), Some("duchess/Impl$Greeter"));
    let parent: value::Class = pool.retrieve(class.super_class().unwrap()).unwrap();
    assert_eq!(parent.name.to_str(), Some("java/lang/Object"));

    let mut interfaces = Vec::new();
    for index in class.interfaces() {
        let implemented: value::Class = pool.retrieve(index.unwrap()).unwrap();
        interfaces.push(implemented.name.to_str().unwrap().to_string());
    }
    assert_eq!(interfaces, vec!["Greeter".to_string()]);

    let mut fields = Vec::new();
    for field in class.fields() {
        let field = field.unwrap();
        fields.push((
            pool.retrieve(field.name()).unwrap().to_str().unwrap().to_string(),
            pool.retrieve(field.descriptor()).unwrap().to_str().unwrap().to_string(),
        ));
    }
    assert_eq!(fields, vec![("nativePointer".to_string(), "J".to_string())]);

    let mut methods = Vec::new();
    for m in class.methods() {
        let m = m.unwrap();
        let mut code = None;
        for attribute in m.attributes() {
            let attribute = attribute.unwrap();
            if let AttributeContent::Code(c) = attribute.read_content(pool).unwrap() {
                let mut count = 0;
                for instruction in c.raw_instructions() {
                    instruction.unwrap();
                    count += 1;
                }
                code = Some((c.max_stack(), c.max_locals(), count));
            }
        }
        methods.push((
            pool.retrieve(m.name()).unwrap().to_str().unwrap().to_string(),
            pool.retrieve(m.descriptor()).unwrap().to_str().unwrap().to_string(),
            m.access_flags(),
            code,
        ));
    }
    assert_eq!(
        methods,
        vec![
            ("<init>".to_string(), "(J)V".to_string(), AccessFlags::empty(), Some((3, 3, 6))),
            (
                "native$greet".to_string(),
                "(Ljava/lang/String;J)Ljava/lang/String;".to_string(),
                AccessFlags::NATIVE,
                None
            ),
            (
                "greet".to_string(),
                "(Ljava/lang/String;)Ljava/lang/String;".to_string(),
                AccessFlags::PUBLIC,
                Some((4, 2, 6))
            ),
        ]
    );
}

#[test]
fn generating_twice_gives_the_same_bytes() {
    let first = generate_interface_shim(&greeter()).unwrap();
    let second = generate_interface_shim(&greeter()).unwrap();
    assert_eq!(first.0.to_dot_name(), second.0.to_dot_name());
    assert_eq!(first.1, second.1);
}

#[test]
fn a_class_is_rejected() {
    let mut described = greeter();
    described.kind = ClassKind::Class;
    let error = generate_interface_shim(&described).unwrap_err();
    assert!(matches!(&error, ShimError::NotAnInterface { class, span }
        if class == "Greeter" && *span == Span { line: 3, column: 7 }));
    assert_eq!(error.message(), "cannot generate interface shim for class `Greeter`");
    assert_eq!(error.span(), Span { line: 3, column: 7 });
}

#[test]
fn an_interface_that_extends_another_is_rejected() {
    let mut described = interface(&["a", "Child"], vec![]);
    described.extends = vec![name(&["a", "Parent"]), name(&["a", "Other"])];
    let error = generate_interface_shim(&described).unwrap_err();
    assert!(matches!(&error, ShimError::Extends { class, extends, .. }
        if class == "a.Child" && extends == "a.Parent"));
    assert_eq!(
        error.message(),
        "cannot generate interface shim for class `a.Child` because it extends `a.Parent`"
    );
}

#[test]
fn the_first_generic_method_is_named() {
    let mut described = interface(
        &["a", "Box"],
        vec![
            method("plain", vec![], None),
            method("first", vec![], None),
            method("second", vec![], None),
        ],
    );
    described.methods[1].generics = ids(&["T"]);
    described.methods[2].generics = ids(&["U", "V"]);
    let error = generate_interface_shim(&described).unwrap_err();
    assert!(matches!(&error, ShimError::GenericMethod { class, method, .. }
        if class == "a.Box" && method == "first"));
    assert_eq!(
        error.message(),
        "cannot generate interface shim for class `a.Box` because method `first` has generics"
    );
}

#[test]
fn the_rules_are_held_in_order() {
    let mut described = interface(&["a", "Bad"], vec![method("m", vec![], None)]);
    described.methods[0].generics = ids(&["T"]);
    described.extends = vec![name(&["a", "Parent"])];
    assert!(matches!(
        generate_interface_shim(&described).unwrap_err(),
        ShimError::Extends { .. }
    ));
    described.kind = ClassKind::Class;
    assert!(matches!(
        generate_interface_shim(&described).unwrap_err(),
        ShimError::NotAnInterface { .. }
    ));
}

#[test]
fn two_methods_with_one_erased_signature_are_rejected() {
    let described = interface(
        &["a", "Twice"],
        vec![
            method("put", vec![Type::Ref(RefType::TypeParameter(Id::new("K")))], None),
            method("get", vec![], Some(string())),
            method("put", vec![class_ref(&["java", "lang", "Object"])], None),
        ],
    );
    let error = generate_interface_shim(&described).unwrap_err();
    assert!(matches!(&error, ShimError::ErasureCollision { class, method, .. }
        if class == "a.Twice" && method == "put"));
    assert_eq!(
        error.message(),
        "cannot generate interface shim for class `a.Twice` because method `put` is declared twice with one erased signature"
    );
}

#[test]
fn overloads_are_not_collisions() {
    let described = interface(
        &["a", "Over"],
        vec![
            method("put", vec![Type::Scalar(ScalarType::Int)], None),
            method("put", vec![Type::Scalar(ScalarType::Long)], None),
        ],
    );
    assert!(generate_interface_shim(&described).is_ok());
}

fn many_methods(count: usize) -> ClassInfo {
    let methods = (0..count).map(|i| method(&format!("m{i}"), vec![], None)).collect();
    interface(&["a", "Many"], methods)
}

#[test]
fn the_most_methods_that_fit_are_accepted() {
    let (_, bytes) = generate_interface_shim(&many_methods(3853)).unwrap();
    // 23 + 17 * 3853 constants plus one
    assert_eq!(&bytes[8..10], &[0xff, 0xf5]);
    assert!(Class::new(&bytes).is_ok());
}

#[test]
fn one_method_too_many_is_rejected() {
    let error = generate_interface_shim(&many_methods(3854)).unwrap_err();
    assert!(matches!(error, ShimError::Encode { kind: EncodeErrorKind::TooManyItems, .. }));
    assert_eq!(error.message(), "too many items");
}

#[test]
fn arguments_that_fill_the_locals_are_accepted() {
    let arguments = (0..126).map(|_| Type::Scalar(ScalarType::Long)).collect();
    let described = interface(&["a", "Full"], vec![method("m", arguments, None)]);
    assert!(generate_interface_shim(&described).is_ok());
}

#[test]
fn arguments_that_overflow_the_locals_are_rejected() {
    let mut arguments: Vec<Type> = (0..126).map(|_| Type::Scalar(ScalarType::F64)).collect();
    arguments.push(Type::Scalar(ScalarType::Int));
    let described = interface(&["a", "Over"], vec![method("m", arguments, None)]);
    let error = generate_interface_shim(&described).unwrap_err();
    assert!(matches!(error, ShimError::Encode { kind: EncodeErrorKind::TooManyArguments, .. }));
    assert_eq!(error.message(), "too many arguments");
}

#[test]
fn a_name_that_is_too_long_is_rejected() {
    let long = "x".repeat(65536);
    let described = interface(&["a", "Long"], vec![method(&long, vec![], None)]);
    let error = generate_interface_shim(&described).unwrap_err();
    assert!(matches!(error, ShimError::Encode { kind: EncodeErrorKind::StringTooLong, .. }));
    assert_eq!(error.message(), "string is too long");
    let fits = "x".repeat(65535 - "native$".len());
    let described = interface(&["a", "Long"], vec![method(&fits, vec![], None)]);
    assert!(generate_interface_shim(&described).is_ok());
}

#[test]
fn names_are_written_in_modified_utf8() {
    // NUL takes two bytes and a character beyond the basic plane takes six
    let described = interface(&["a", "N\u{0}\u{1F600}"], vec![]);
    let (_, bytes) = generate_interface_shim(&described).unwrap();
    let written = [b'a', b'/', b'N', 0xC0, 0x80, 0xED, 0xA0, 0xBD, 0xED, 0xB8, 0x80];
    assert!(bytes.windows(written.len()).any(|w| w == written));
    let utf8 = "a/N\u{0}\u{1F600}".as_bytes();
    assert!(!bytes.windows(utf8.len()).any(|w| w == utf8));
}

#[test]
fn native_methods_are_those_that_the_shim_declares() {
    let natives = native_methods(&greeter());
    assert_eq!(natives.len(), 1);
    assert_eq!(natives[0].name, "native$greet");
    assert_eq!(natives[0].descriptor, "(Ljava/lang/String;J)Ljava/lang/String;");
}

#[test]
fn the_assembler_counts_its_constants() {
    let mut writer = duchess::classfile::ClassAssembler::new();
    assert_eq!(writer.next_index(), 1);
    assert_eq!(writer.utf8(&b"Code".to_vec()), 1);
    assert_eq!(writer.class(&b"a/B".to_vec()), 3);
    assert_eq!(
        writer.member(
            duchess::classfile::FIELD_REF,
            &b"a/B".to_vec(),
            &b"f".to_vec(),
            &b"J".to_vec()
        ),
        9
    );
    assert_eq!(writer.next_index(), 10);
    writer.put_u16(0x0102);
    let bytes = writer.into_bytes(3, 45);
    assert_eq!(&bytes[..10], &[0xCA, 0xFE, 0xBA, 0xBE, 0, 3, 0, 45, 0, 10]);
    assert_eq!(&bytes[10..17], &[1, 0, 4, b'C', b'o', b'd', b'e']);
    assert_eq!(&bytes[bytes.len() - 2..], &[1, 2]);
    // the reference to the field stands last among the constants
    assert_eq!(&bytes[bytes.len() - 7..bytes.len() - 2], &[9, 0, 5, 0, 8]);
}

#[test]
fn a_method_named_like_the_native_method_of_another_is_rejected() {
    let int = || Type::Scalar(ScalarType::Int);
    let described = interface(
        &["a", "Clash"],
        vec![
            method("foo", vec![int()], Some(int())),
            method("native$foo", vec![int(), Type::Scalar(ScalarType::Long)], Some(int())),
        ],
    );
    let error = generate_interface_shim(&described).unwrap_err();
    assert!(matches!(&error, ShimError::ErasureCollision { class, method, .. }
        if class == "a.Clash" && method == "native$foo"));
    // in the other order the native method of the second repeats the first
    let described = interface(
        &["a", "Clash"],
        vec![
            method("native$foo", vec![int(), Type::Scalar(ScalarType::Long)], Some(int())),
            method("foo", vec![int()], Some(int())),
        ],
    );
    let error = generate_interface_shim(&described).unwrap_err();
    assert!(matches!(&error, ShimError::ErasureCollision { method, .. } if method == "foo"));
    // with another descriptor the two names can stand side by side
    let described = interface(
        &["a", "Clash"],
        vec![
            method("foo", vec![int()], Some(int())),
            method("native$foo", vec![int()], Some(int())),
        ],
    );
    assert!(generate_interface_shim(&described).is_ok());
}

#[test]
fn a_method_that_repeats_the_constructor_is_rejected() {
    let described = interface(
        &["a", "Init"],
        vec![
            method("plain", vec![], None),
            method("<init>", vec![Type::Scalar(ScalarType::Long)], None),
        ],
    );
    let error = generate_interface_shim(&described).unwrap_err();
    assert!(matches!(&error, ShimError::ErasureCollision { method, .. } if method == "<init>"));
    let described = interface(&["a", "Init"], vec![method("<init>", vec![], None)]);
    assert!(generate_interface_shim(&described).is_ok());
}

#[test]
fn the_methods_of_an_accepted_shim_differ_in_name_or_descriptor() {
    let described = interface(
        &["a", "Many"],
        vec![
            method("put", vec![Type::Scalar(ScalarType::Int)], None),
            method("put", vec![Type::Scalar(ScalarType::Long)], None),
            method("get", vec![], Some(string())),
        ],
    );
    let (_, bytes) = generate_interface_shim(&described).unwrap();
    let class = Class::new(&bytes).unwrap();
    let pool = class.pool();
    let mut seen = Vec::new();
    for m in class.methods() {
        let m = m.unwrap();
        let key = (
            pool.retrieve(m.name()).unwrap().to_str().unwrap().to_string(),
            pool.retrieve(m.descriptor()).unwrap().to_str().unwrap().to_string(),
        );
        assert!(!seen.contains(&key));
        seen.push(key);
    }
    assert_eq!(seen.len(), 7);
    let declared = duchess::shim::declare_methods(&described.methods);
    let listed: Vec<(String, String)> =
        declared.into_iter().map(|d| (d.name, d.descriptor)).collect();
    assert_eq!(listed, seen);
}
