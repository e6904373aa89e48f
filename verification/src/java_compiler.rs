//! What the build step works out before and after it runs the compiler of
//! the managed runtime: where the files of a class lie, and the constant by
//! which native code names a generated class.

use crate::class_info::{dotted_name, ids_view, jni_name, DotId, Id};
use crate::text::{decimal, push_char, push_decimal, push_signed_decimal, signed_decimal};
use vstd::prelude::*;
use vstd::string::*;
use vstd::utf8::*;

verus! {

/// A text in upper case with underscores between its words.
pub uninterp spec fn shouty_snake_case(text: Seq<char>) -> Seq<char>;

/// Turns a text into upper case with underscores between its words.
///
/// Trusted: `ToShoutySnakeCase::to_shouty_snake_case` of heck, for `str`.
/// It splits the text into words at boundaries that depend on the case and
/// class of its characters, and joins the words in upper case with
/// underscores; the result depends on the text alone.
#[verifier::external_body]
pub(crate) fn to_shouty_snake_case(text: &str) -> (s: String)
    ensures
        s@ == shouty_snake_case(text@),
{
    heck::ToShoutySnakeCase::to_shouty_snake_case(text)
}

/// A text as a string literal of source code, in double quotes and with
/// escapes.
pub uninterp spec fn debug_quoted(text: Seq<char>) -> Seq<char>;

/// Writes a text as a string literal of source code.
///
/// Trusted: the `Debug` formatting of `str` in the standard library, which
/// puts the text in double quotes and escapes what a literal cannot hold;
/// the result depends on the text alone.
#[verifier::external_body]
pub(crate) fn quote(text: &str) -> (s: String)
    ensures
        s@ == debug_quoted(text@),
{
    format!("{:?}", text)
}

/// A text with two underscores in place of each dollar sign.
pub open spec fn dollars_doubled(text: Seq<char>) -> Seq<char>
    decreases text.len(),
{
    if text.len() == 0 {
        Seq::empty()
    } else if text.last() == '$' {
        dollars_doubled(text.drop_last()) + seq!['_', '_']
    } else {
        dollars_doubled(text.drop_last()).push(text.last())
    }
}

/// The name of the constant for a class: the name of the class without its
/// package, with two underscores for each dollar sign, in upper case with
/// underscores between its words.
pub open spec fn constant_name_of(class: Seq<Seq<char>>) -> Seq<char> {
    shouty_snake_case(dollars_doubled(class.last()))
}

/// A text with two underscores in place of each dollar sign.
pub fn double_dollars(text: &str) -> (s: String)
    ensures
        s@ == dollars_doubled(text@),
{
    broadcast use vstd::string::group_string_axioms;

    let mut s = String::new();
    assert(text@.take(0) =~= Seq::<char>::empty());
    for c in it: text.chars()
        invariant
            it.seq() == text@,
            s@ == dollars_doubled(text@.take(it.index() as int)),
    {
        proof {
            let i = it.index() as int;
            assert(text@.take(i + 1).drop_last() =~= text@.take(i));
            assert(text@.take(i + 1).last() == c);
        }
        if c == '$' {
            push_char(&mut s, '_');
            push_char(&mut s, '_');
            assert(s@ =~= dollars_doubled(text@.take(it.index() as int)) + seq!['_', '_']);
        } else {
            push_char(&mut s, c);
        }
    }
    assert(text@.take(text@.len() as int) =~= text@);
    s
}

/// The name of the constant for the class of the given name.
pub fn constant_name(class_name: &DotId) -> (s: String)
    ensures
        s@ == constant_name_of(class_name@),
{
    let doubled = double_dollars(class_name.class_name().as_str());
    to_shouty_snake_case(doubled.as_str())
}

/// A byte of a class file as the managed runtime reads it: as a signed
/// number.
pub open spec fn signed_byte(byte: u8) -> int {
    if byte < 128 {
        byte as int
    } else {
        byte - 256
    }
}

/// The bytes as items of a list of unsigned literals.
pub open spec fn unsigned_items(bytes: Seq<u8>) -> Seq<char>
    decreases bytes.len(),
{
    if bytes.len() == 0 {
        Seq::empty()
    } else {
        unsigned_items(bytes.drop_last()) + decimal(bytes.last() as nat) + "_u8,"@
    }
}

/// The bytes as items of a list of signed literals.
pub open spec fn signed_items(bytes: Seq<u8>) -> Seq<char>
    decreases bytes.len(),
{
    if bytes.len() == 0 {
        Seq::empty()
    } else {
        signed_items(bytes.drop_last()) + signed_decimal(signed_byte(bytes.last())) + "_i8,"@
    }
}

/// The words with which the declaration of a constant begins.
pub open spec fn declaration_head(constant: Seq<char>) -> Seq<char> {
    "pub const "@ + constant
        + ": duchess::plumbing::ClassDefinition = duchess::plumbing::ClassDefinition::"@
}

/// The declaration of the constant for a class that exists already: its
/// name for people, and the name by which the runtime finds it, as bytes
/// that end in a zero.
pub open spec fn external_declaration(class: Seq<Seq<char>>) -> Seq<char> {
    declaration_head(constant_name_of(class)) + "new_external("@ + debug_quoted(
        dotted_name(class),
    ) + ","@ + "unsafe { ::core::ffi::CStr::from_bytes_with_nul_unchecked(&["@ + unsigned_items(
        encode_utf8(jni_name(class)),
    ) + "0_u8,"@ + "]) },"@ + ");"@
}

/// The declaration of the constant for a class that is defined from bytes:
/// its name for people, the name under which it is defined, and the bytes.
pub open spec fn inline_declaration(class: Seq<Seq<char>>, bytes: Seq<u8>) -> Seq<char> {
    declaration_head(constant_name_of(class)) + "new("@ + debug_quoted(dotted_name(class)) + ","@
        + debug_quoted(jni_name(class)) + ","@ + "&["@ + signed_items(bytes) + "],"@ + ");"@
}

/// The declaration of the constant for a class.
pub open spec fn declaration(external: bool, class: Seq<Seq<char>>, bytes: Seq<u8>) -> Seq<char> {
    if external {
        external_declaration(class)
    } else {
        inline_declaration(class, bytes)
    }
}

/// Appends the bytes as items of a list of unsigned literals.
fn push_unsigned_items(out: &mut String, bytes: &[u8])
    ensures
        final(out)@ == old(out)@ + unsigned_items(bytes@),
{
    let n = bytes.len();
    let mut i: usize = 0;
    assert(bytes@.take(0) =~= Seq::<u8>::empty());
    assert(out@ =~= old(out)@ + unsigned_items(bytes@.take(0)));
    while i < n
        invariant
            n == bytes@.len(),
            i <= n,
            out@ == old(out)@ + unsigned_items(bytes@.take(i as int)),
        decreases n - i,
    {
        let ghost before = out@;
        proof {
            assert(bytes@.take(i + 1).drop_last() =~= bytes@.take(i as int));
            assert(bytes@.take(i + 1).last() == bytes@[i as int]);
        }
        push_decimal(out, bytes[i] as u128);
        out.append("_u8,");
        assert(out@ =~= old(out)@ + unsigned_items(bytes@.take(i + 1)));
        i += 1;
    }
    assert(bytes@.take(n as int) =~= bytes@);
}

/// Appends the bytes as items of a list of signed literals.
fn push_signed_items(out: &mut String, bytes: &Vec<u8>)
    ensures
        final(out)@ == old(out)@ + signed_items(bytes@),
{
    let n = bytes.len();
    let mut i: usize = 0;
    assert(bytes@.take(0) =~= Seq::<u8>::empty());
    assert(out@ =~= old(out)@ + signed_items(bytes@.take(0)));
    while i < n
        invariant
            n == bytes@.len(),
            i <= n,
            out@ == old(out)@ + signed_items(bytes@.take(i as int)),
        decreases n - i,
    {
        proof {
            assert(bytes@.take(i + 1).drop_last() =~= bytes@.take(i as int));
            assert(bytes@.take(i + 1).last() == bytes@[i as int]);
        }
        let byte = bytes[i];
        let signed: i64 = if byte < 128 {
            byte as i64
        } else {
            byte as i64 - 256
        };
        push_signed_decimal(out, signed);
        out.append("_i8,");
        assert(out@ =~= old(out)@ + signed_items(bytes@.take(i + 1)));
        i += 1;
    }
    assert(bytes@.take(n as int) =~= bytes@);
}

/// The source text that declares the constant for a class: for a class
/// that exists already, by its names alone; else with the bytes of its
/// class file.
pub fn definition_source(external: bool, class_name: &DotId, class_bytes: &Vec<u8>) -> (s: String)
    ensures
        s@ == declaration(external, class_name@, class_bytes@),
{
    let mut s = String::from_str("pub const ");
    let constant = constant_name(class_name);
    s.append(constant.as_str());
    s.append(": duchess::plumbing::ClassDefinition = duchess::plumbing::ClassDefinition::");
    assert(s@ =~= declaration_head(constant_name_of(class_name@)));
    let human = class_name.to_dot_name();
    let quoted_human = quote(human.as_str());
    let jni = class_name.to_jni_name();
    if external {
        s.append("new_external(");
        s.append(quoted_human.as_str());
        s.append(",");
        s.append("unsafe { ::core::ffi::CStr::from_bytes_with_nul_unchecked(&[");
        push_unsigned_items(&mut s, jni.as_str().as_bytes());
        s.append("0_u8,");
        s.append("]) },");
        s.append(");");
        assert(s@ =~= external_declaration(class_name@));
    } else {
        let quoted_jni = quote(jni.as_str());
        s.append("new(");
        s.append(quoted_human.as_str());
        s.append(",");
        s.append(quoted_jni.as_str());
        s.append(",");
        s.append("&[");
        push_signed_items(&mut s, class_bytes);
        s.append("],");
        s.append(");");
        assert(s@ =~= inline_declaration(class_name@, class_bytes@));
    }
    s
}

/// The bytes of a class file as the definition of a class holds them: each
/// as a signed number.
pub fn to_signed_bytes(bytes: &Vec<u8>) -> (signed: Vec<i8>)
    ensures
        signed@.len() == bytes@.len(),
        forall|i: int| 0 <= i < bytes@.len() ==> signed@[i] == signed_byte(#[trigger] bytes@[i]),
{
    let mut signed: Vec<i8> = Vec::new();
    let n = bytes.len();
    let mut i: usize = 0;
    while i < n
        invariant
            n == bytes@.len(),
            i <= n,
            signed@.len() == i,
            forall|k: int| 0 <= k < i ==> signed@[k] == signed_byte(#[trigger] bytes@[k]),
        decreases n - i,
    {
        let byte = bytes[i];
        let value: i8 = if byte < 128 {
            byte as i8
        } else {
            (byte as i16 - 256) as i8
        };
        signed.push(value);
        i += 1;
    }
    signed
}

/// The path of `part` inside the directory `base`.
pub uninterp spec fn path_joined(base: Seq<char>, part: Seq<char>) -> Seq<char>;

/// The path of `part` inside the directory `base`.
///
/// Trusted: `Path::join` of the standard library, on paths that are given
/// and returned as text. It puts the path separator between the two, unless
/// `part` is absolute and replaces `base`; for the platform that the
/// library is built for, the result depends on the two texts alone.
#[verifier::external_body]
pub(crate) fn path_join(base: &str, part: &str) -> (path: String)
    ensures
        path@ == path_joined(base@, part@),
{
    std::path::Path::new(base).join(part).to_string_lossy().into_owned()
}

/// A path with the given extension in place of its own, if it has one.
pub uninterp spec fn path_with_extension(path: Seq<char>, extension: Seq<char>) -> Seq<char>;

/// Whether a text holds no character that separates the parts of a path
/// on any platform.
pub open spec fn no_separator(text: Seq<char>) -> bool {
    forall|i: int| 0 <= i < text.len() ==> #[trigger] text[i] != '/' && text[i] != '\\'
}

/// A path with the given extension in place of its own.
///
/// Trusted: `Path::with_extension` of the standard library, on paths that
/// are given and returned as text. It replaces what follows the last dot of
/// the file name, or adds a dot and the extension where the name has none;
/// the result depends on the two texts alone. It panics on an extension
/// that holds a path separator, so none is admitted.
#[verifier::external_body]
pub(crate) fn with_extension(path: &str, extension: &str) -> (replaced: String)
    requires
        no_separator(extension@),
    ensures
        replaced@ == path_with_extension(path@, extension@),
{
    std::path::Path::new(path).with_extension(extension).to_string_lossy().into_owned()
}

/// Where the build step keeps its files.
pub struct Layout {
    /// Where the sources for the compiler are put.
    pub source_path: String,
    /// Where the compiler puts class files.
    pub output_path: String,
    /// Whether native code is to name classes that exist already, rather
    /// than to hold their bytes.
    pub external: bool,
    /// Where the source text for native code is put.
    pub out_dir: String,
}

/// The directory for class files: the one that was asked for, or `class`
/// in the temporary directory.
pub open spec fn output_path_of(temporary: Seq<char>, output: Option<Seq<char>>) -> Seq<char> {
    match output {
        Some(dir) => dir,
        None => path_joined(temporary, "class"@),
    }
}

/// The directory for source text for native code: the one that the build
/// names, or `target`.
pub open spec fn out_dir_of(named: Option<Seq<char>>) -> Seq<char> {
    match named {
        Some(dir) => dir,
        None => "target"@,
    }
}

/// Lays out the files of the build step: sources go to `src` in the
/// temporary directory; class files go where the caller asked, and are then
/// named by native code rather than held, or else to `class` in the
/// temporary directory; source text for native code goes where the build
/// names, or else to `target`.
pub fn layout(temporary_dir: &str, output_dir: Option<&str>, out_dir: Option<&str>) -> (l: Layout)
    ensures
        l.source_path@ == path_joined(temporary_dir@, "src"@),
        l.output_path@ == output_path_of(
            temporary_dir@,
            match output_dir {
                Some(d) => Some(d@),
                None => None,
            },
        ),
        l.external == output_dir is Some,
        l.out_dir@ == out_dir_of(
            match out_dir {
                Some(d) => Some(d@),
                None => None,
            },
        ),
{
    let source_path = path_join(temporary_dir, "src");
    let output_path = match output_dir {
        Some(d) => String::from_str(d),
        None => path_join(temporary_dir, "class"),
    };
    let out = match out_dir {
        Some(d) => String::from_str(d),
        None => String::from_str("target"),
    };
    Layout { source_path, output_path, external: output_dir.is_some(), out_dir: out }
}

/// The directory of a package below `root`: one directory for each
/// identifier of the package, each inside the one before.
pub open spec fn package_dir_of(root: Seq<char>, package: Seq<Seq<char>>) -> Seq<char>
    decreases package.len(),
{
    if package.len() == 0 {
        root
    } else {
        path_joined(package_dir_of(root, package.drop_last()), package.last())
    }
}

/// The directory of a package below `root`.
pub fn package_dir(root: &str, package: &Vec<Id>) -> (dir: String)
    ensures
        dir@ == package_dir_of(root@, ids_view(package@)),
{
    let ghost ids = ids_view(package@);
    let mut dir = String::from_str(root);
    let n = package.len();
    let mut i: usize = 0;
    assert(ids.take(0) =~= Seq::<Seq<char>>::empty());
    while i < n
        invariant
            n == package@.len(),
            ids == ids_view(package@),
            i <= n,
            dir@ == package_dir_of(root@, ids.take(i as int)),
        decreases n - i,
    {
        proof {
            assert(ids.take(i + 1).drop_last() =~= ids.take(i as int));
            assert(ids.take(i + 1).last() == package@[i as int]@);
        }
        dir = path_join(dir.as_str(), package[i].as_str());
        i += 1;
    }
    assert(ids.take(n as int) =~= ids);
    dir
}

/// Where the files of one class lie.
pub struct JavaFilePaths {
    /// The directory of the class's package among the sources.
    pub source_dir: String,
    /// The directory of the class's package among the class files.
    pub class_dir: String,
    /// The source of the class for the compiler.
    pub java_path: String,
    /// The class file that the compiler writes.
    pub class_path: String,
    /// The source text for native code.
    pub rs_path: String,
}

/// The file named after a class, with the given extension, in the
/// directory of the class's package below `root`.
pub open spec fn class_file_path(root: Seq<char>, class: Seq<Seq<char>>, extension: Seq<char>) -> Seq<
    char,
> {
    path_with_extension(
        path_joined(package_dir_of(root, class.drop_last()), class.last()),
        extension,
    )
}

/// Where the files of a class lie: its source and its class file in the
/// directories of its package, and the source text for native code, named
/// after the class alone, in the directory for such text.
pub fn java_file_paths(l: &Layout, class_name: &DotId) -> (paths: JavaFilePaths)
    ensures
        paths.source_dir@ == package_dir_of(l.source_path@, class_name@.drop_last()),
        paths.class_dir@ == package_dir_of(l.output_path@, class_name@.drop_last()),
        paths.java_path@ == class_file_path(l.source_path@, class_name@, "java"@),
        paths.class_path@ == class_file_path(l.output_path@, class_name@, "class"@),
        paths.rs_path@ == path_joined(l.out_dir@, class_name@.last() + ".rs"@),
{
    proof {
        reveal_strlit("java");
        reveal_strlit("class");
        assert(no_separator("java"@));
        assert(no_separator("class"@));
    }
    let (package, class) = class_name.split();
    let source_dir = package_dir(l.source_path.as_str(), package);
    let class_dir = package_dir(l.output_path.as_str(), package);
    let java_stem = path_join(source_dir.as_str(), class.as_str());
    let java_path = with_extension(java_stem.as_str(), "java");
    let class_stem = path_join(class_dir.as_str(), class.as_str());
    let class_path = with_extension(class_stem.as_str(), "class");
    let mut rs_name = String::from_str(class.as_str());
    rs_name.append(".rs");
    let rs_path = path_join(l.out_dir.as_str(), rs_name.as_str());
    JavaFilePaths { source_dir, class_dir, java_path, class_path, rs_path }
}

} // verus!
