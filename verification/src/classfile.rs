//! A byte-level writer of class files: the constant pool, member headers and
//! code attributes. It knows the layout of a class file and nothing of what
//! the classes are for.

use vstd::prelude::*;

verus! {

/// The largest number that fits in the two-byte fields of a class file.
pub const U16_LIMIT: usize = 65535;

/// A number in two bytes, most significant first.
pub open spec fn be16(v: int) -> Seq<u8> {
    seq![((v / 256) % 256) as u8, (v % 256) as u8]
}

/// A number in four bytes, most significant first.
pub open spec fn be32(v: int) -> Seq<u8> {
    seq![
        ((v / 16777216) % 256) as u8,
        ((v / 65536) % 256) as u8,
        ((v / 256) % 256) as u8,
        (v % 256) as u8,
    ]
}

/// The bytes that stand for a text inside a class file: its modified UTF-8
/// form.
pub uninterp spec fn mutf8_bytes(text: Seq<char>) -> Seq<u8>;

/// Whether every character of a text is an ASCII character other than NUL.
pub open spec fn plain_ascii(text: Seq<char>) -> bool {
    forall|i: int| 0 <= i < text.len() ==> 1 <= #[trigger] text[i] as u32 <= 127
}

/// The characters of a text, each as one byte.
pub open spec fn ascii_bytes(text: Seq<char>) -> Seq<u8> {
    Seq::new(text.len(), |i: int| text[i] as u8)
}

/// Encodes a text as a class file holds it.
///
/// Trusted: the conversion of noak from `&str` to `MString`, read back with
/// `MStr::as_bytes`. It encodes the characters one after another in modified
/// UTF-8; the result depends on the text alone. A character from U+0001 to
/// U+007F becomes the one byte of its code.
#[verifier::external_body]
pub(crate) fn mutf8_encode(text: &str) -> (bytes: Vec<u8>)
    ensures
        bytes@ == mutf8_bytes(text@),
        plain_ascii(text@) ==> bytes@ == ascii_bytes(text@),
{
    noak::mutf8::MString::from(text).as_bytes().to_vec()
}

/// A constant that holds text: its tag, the length of the text in bytes,
/// and the text.
pub open spec fn utf8_entry(text: Seq<u8>) -> Seq<u8> {
    seq![1u8] + be16(text.len() as int) + text
}

/// A constant that names a class by the index of its name.
pub open spec fn class_entry(name: int) -> Seq<u8> {
    seq![7u8] + be16(name)
}

/// A constant that pairs the index of a name with that of a descriptor.
pub open spec fn name_and_type_entry(name: int, descriptor: int) -> Seq<u8> {
    seq![12u8] + be16(name) + be16(descriptor)
}

/// The tag of a constant that refers to a field.
pub const FIELD_REF: u8 = 9;

/// The tag of a constant that refers to a method.
pub const METHOD_REF: u8 = 10;

/// A constant that refers to a member of a class, by the index of the class
/// and that of the member's name and descriptor.
pub open spec fn member_entry(tag: u8, class: int, name_and_type: int) -> Seq<u8> {
    seq![tag] + be16(class) + be16(name_and_type)
}

/// The two constants of a class, placed at index `at`: the name, then the
/// class itself at `at + 1`.
pub open spec fn class_entries(name: Seq<u8>, at: int) -> Seq<u8> {
    utf8_entry(name) + class_entry(at)
}

/// The six constants of a reference to a member, placed at index `at`: the
/// class with its name, the member's name and descriptor, their pairing,
/// and the reference itself at `at + 5`.
pub open spec fn member_entries(
    tag: u8,
    class: Seq<u8>,
    name: Seq<u8>,
    descriptor: Seq<u8>,
    at: int,
) -> Seq<u8> {
    class_entries(class, at) + utf8_entry(name) + utf8_entry(descriptor) + name_and_type_entry(
        at + 2,
        at + 3,
    ) + member_entry(tag, at + 1, at + 4)
}

/// The head of a field or method: its access flags, the indices of its name
/// and descriptor, and the number of attributes that follow.
pub open spec fn member_header(flags: int, name: int, descriptor: int, attributes: int) -> Seq<u8> {
    be16(flags) + be16(name) + be16(descriptor) + be16(attributes)
}

/// A code attribute without exception handlers or attributes of its own:
/// the index of its name, its length, the stack and locals it needs, and
/// the code.
pub open spec fn code_attribute(name: int, max_stack: int, max_locals: int, code: Seq<u8>) -> Seq<
    u8,
> {
    be16(name) + be32(12 + code.len() as int) + be16(max_stack) + be16(max_locals) + be32(
        code.len() as int,
    ) + code + be16(0) + be16(0)
}

/// A whole class file: the magic number, the version, the number of
/// constants plus one, the constants, and everything after them.
pub open spec fn class_file(minor: int, major: int, count: int, pool: Seq<u8>, body: Seq<u8>) -> Seq<
    u8,
> {
    be32(0xCAFEBABE) + be16(minor) + be16(major) + be16(count) + pool + body
}

/// Appends a number in two bytes, most significant first.
pub fn push_u16(out: &mut Vec<u8>, v: u16)
    ensures
        final(out)@ == old(out)@ + be16(v as int),
{
    out.push((v / 256) as u8);
    out.push((v % 256) as u8);
    assert(out@ =~= old(out)@ + be16(v as int));
}

/// Appends a number in four bytes, most significant first.
pub fn push_u32(out: &mut Vec<u8>, v: u32)
    ensures
        final(out)@ == old(out)@ + be32(v as int),
{
    out.push((v / 16777216) as u8);
    out.push(((v / 65536) % 256) as u8);
    out.push(((v / 256) % 256) as u8);
    out.push((v % 256) as u8);
    assert(out@ =~= old(out)@ + be32(v as int));
}

/// Appends all bytes of `src`.
pub fn push_all(out: &mut Vec<u8>, src: &Vec<u8>)
    ensures
        final(out)@ == old(out)@ + src@,
{
    let n = src.len();
    let mut i: usize = 0;
    while i < n
        invariant
            n == src@.len(),
            i <= n,
            out@ == old(out)@ + src@.take(i as int),
        decreases n - i,
    {
        out.push(src[i]);
        assert(out@ =~= old(out)@ + src@.take(i + 1));
        i += 1;
    }
    assert(src@.take(n as int) =~= src@);
}

/// A class file under construction: the constants written so far, the index
/// that the next constant gets, and what follows the constants.
pub struct ClassAssembler {
    pool: Vec<u8>,
    count: u16,
    body: Vec<u8>,
}

impl ClassAssembler {
    /// The bytes of the constants written so far.
    pub closed spec fn pool(&self) -> Seq<u8> {
        self.pool@
    }

    /// The index that the next constant gets.
    pub closed spec fn count(&self) -> int {
        self.count as int
    }

    /// The bytes written after the constants.
    pub closed spec fn body(&self) -> Seq<u8> {
        self.body@
    }

    /// An assembler that holds nothing; its first constant gets index 1.
    pub fn new() -> (writer: ClassAssembler)
        ensures
            writer.pool() == Seq::<u8>::empty(),
            writer.count() == 1,
            writer.body() == Seq::<u8>::empty(),
    {
        ClassAssembler { pool: Vec::new(), count: 1, body: Vec::new() }
    }

    /// The index that the next constant gets.
    pub fn next_index(&self) -> (index: u16)
        ensures
            index == self.count(),
    {
        self.count
    }

    /// Adds a constant that holds `text`, and returns its index.
    pub fn utf8(&mut self, text: &Vec<u8>) -> (index: u16)
        requires
            old(self).count() < U16_LIMIT,
            text@.len() <= U16_LIMIT,
        ensures
            index == old(self).count(),
            final(self).count() == old(self).count() + 1,
            final(self).pool() == old(self).pool() + utf8_entry(text@),
            final(self).body() == old(self).body(),
    {
        let index = self.count;
        self.pool.push(1u8);
        push_u16(&mut self.pool, text.len() as u16);
        push_all(&mut self.pool, text);
        self.count = self.count + 1;
        assert(self.pool@ =~= old(self).pool@ + utf8_entry(text@));
        index
    }

    /// Adds a constant for the class whose name is `name`, after a constant
    /// for the name, and returns the index of the class.
    pub fn class(&mut self, name: &Vec<u8>) -> (index: u16)
        requires
            old(self).count() + 1 < U16_LIMIT,
            name@.len() <= U16_LIMIT,
        ensures
            index == old(self).count() + 1,
            final(self).count() == old(self).count() + 2,
            final(self).pool() == old(self).pool() + class_entries(name@, old(self).count()),
            final(self).body() == old(self).body(),
    {
        let name_index = self.utf8(name);
        let index = self.count;
        self.pool.push(7u8);
        push_u16(&mut self.pool, name_index);
        self.count = self.count + 1;
        assert(self.pool@ =~= old(self).pool@ + class_entries(name@, old(self).count()));
        index
    }

    /// Adds the constants of a reference to a member of a class, and returns
    /// the index of the reference.
    pub fn member(
        &mut self,
        tag: u8,
        class: &Vec<u8>,
        name: &Vec<u8>,
        descriptor: &Vec<u8>,
    ) -> (index: u16)
        requires
            old(self).count() + 5 < U16_LIMIT,
            class@.len() <= U16_LIMIT,
            name@.len() <= U16_LIMIT,
            descriptor@.len() <= U16_LIMIT,
        ensures
            index == old(self).count() + 5,
            final(self).count() == old(self).count() + 6,
            final(self).pool() == old(self).pool() + member_entries(
                tag,
                class@,
                name@,
                descriptor@,
                old(self).count(),
            ),
            final(self).body() == old(self).body(),
    {
        let class_index = self.class(class);
        let name_index = self.utf8(name);
        let descriptor_index = self.utf8(descriptor);
        let pair_index = self.count;
        self.pool.push(12u8);
        push_u16(&mut self.pool, name_index);
        push_u16(&mut self.pool, descriptor_index);
        self.count = self.count + 1;
        let index = self.count;
        self.pool.push(tag);
        push_u16(&mut self.pool, class_index);
        push_u16(&mut self.pool, pair_index);
        self.count = self.count + 1;
        assert(self.pool@ =~= old(self).pool@ + member_entries(
            tag,
            class@,
            name@,
            descriptor@,
            old(self).count(),
        ));
        index
    }

    /// Writes a number in two bytes after the constants.
    pub fn put_u16(&mut self, v: u16)
        ensures
            final(self).body() == old(self).body() + be16(v as int),
            final(self).pool() == old(self).pool(),
            final(self).count() == old(self).count(),
    {
        push_u16(&mut self.body, v);
    }

    /// Writes the head of a field or method.
    pub fn put_member_header(&mut self, flags: u16, name: u16, descriptor: u16, attributes: u16)
        ensures
            final(self).body() == old(self).body() + member_header(
                flags as int,
                name as int,
                descriptor as int,
                attributes as int,
            ),
            final(self).pool() == old(self).pool(),
            final(self).count() == old(self).count(),
    {
        push_u16(&mut self.body, flags);
        push_u16(&mut self.body, name);
        push_u16(&mut self.body, descriptor);
        push_u16(&mut self.body, attributes);
        assert(self.body@ =~= old(self).body@ + member_header(
            flags as int,
            name as int,
            descriptor as int,
            attributes as int,
        ));
    }

    /// Writes a code attribute.
    pub fn put_code(&mut self, name: u16, max_stack: u16, max_locals: u16, code: &Vec<u8>)
        requires
            code@.len() <= U16_LIMIT,
        ensures
            final(self).body() == old(self).body() + code_attribute(
                name as int,
                max_stack as int,
                max_locals as int,
                code@,
            ),
            final(self).pool() == old(self).pool(),
            final(self).count() == old(self).count(),
    {
        let length: u32 = code.len() as u32;
        push_u16(&mut self.body, name);
        push_u32(&mut self.body, 12 + length);
        push_u16(&mut self.body, max_stack);
        push_u16(&mut self.body, max_locals);
        push_u32(&mut self.body, length);
        push_all(&mut self.body, code);
        push_u16(&mut self.body, 0);
        push_u16(&mut self.body, 0);
        assert(self.body@ =~= old(self).body@ + code_attribute(
            name as int,
            max_stack as int,
            max_locals as int,
            code@,
        ));
    }

    /// The class file that was assembled, for the given version.
    pub fn into_bytes(self, minor: u16, major: u16) -> (bytes: Vec<u8>)
        ensures
            bytes@ == class_file(
                minor as int,
                major as int,
                self.count(),
                self.pool(),
                self.body(),
            ),
    {
        let mut bytes: Vec<u8> = Vec::new();
        push_u32(&mut bytes, 0xCAFEBABE);
        push_u16(&mut bytes, minor);
        push_u16(&mut bytes, major);
        push_u16(&mut bytes, self.count);
        push_all(&mut bytes, &self.pool);
        push_all(&mut bytes, &self.body);
        assert(bytes@ =~= class_file(
            minor as int,
            major as int,
            self.count(),
            self.pool(),
            self.body(),
        ));
        bytes
    }
}

} // verus!
