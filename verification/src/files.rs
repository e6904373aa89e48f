//! Source files that are searched for uses of the bridge, and the two ways
//! of reading in them: naming a place, and taking the text of one use.

use crate::text::{decimal, push_char, push_decimal};
use vstd::prelude::*;
use vstd::string::*;
use vstd::utf8::*;

verus! {

/// A source file: where it lies and what it holds.
pub struct File {
    pub path: String,
    pub contents: String,
}

/// The byte of a line feed.
pub const LINE_FEED: u8 = 10;

/// How many line feeds the bytes hold.
pub open spec fn line_feeds(bytes: Seq<u8>) -> nat
    decreases bytes.len(),
{
    if bytes.len() == 0 {
        0
    } else {
        line_feeds(bytes.drop_last()) + if bytes.last() == LINE_FEED {
            1nat
        } else {
            0nat
        }
    }
}

/// How many bytes follow the last line feed; all of them where there is
/// none.
pub open spec fn after_last_line_feed(bytes: Seq<u8>) -> nat
    decreases bytes.len(),
{
    if bytes.len() == 0 || bytes.last() == LINE_FEED {
        0
    } else {
        after_last_line_feed(bytes.drop_last()) + 1
    }
}

/// How many lines the bytes hold: one for each line feed, and one more for
/// what follows the last of them, if anything does.
pub open spec fn line_count(bytes: Seq<u8>) -> nat {
    line_feeds(bytes) + if after_last_line_feed(bytes) > 0 {
        1nat
    } else {
        0nat
    }
}

/// The words that name a place in a file: the path, the number of lines up
/// to the place, and the column of the place in its line, counted in bytes
/// from one, each followed by a colon.
pub open spec fn slug_text(path: Seq<char>, before: Seq<u8>) -> Seq<char> {
    path + seq![':'] + decimal(line_count(before)) + seq![':'] + decimal(
        1 + after_last_line_feed(before),
    ) + seq![':']
}

/// Whether a byte opens a group of tokens.
pub open spec fn opens(byte: u8) -> bool {
    byte == 0x7b || byte == 0x5b || byte == 0x28
}

/// Whether a byte closes a group of tokens.
pub open spec fn closes(byte: u8) -> bool {
    byte == 0x7d || byte == 0x5d || byte == 0x29
}

/// Where the text that starts at `at`, inside `depth` open groups, ends: at
/// the first byte that closes a group which was not opened in it, or at the
/// end of the bytes.
pub open spec fn group_end(bytes: Seq<u8>, at: int, depth: nat) -> int
    decreases bytes.len() - at,
{
    if at >= bytes.len() {
        bytes.len() as int
    } else if opens(bytes[at]) {
        group_end(bytes, at + 1, depth + 1)
    } else if closes(bytes[at]) {
        if depth == 0 {
            at
        } else {
            group_end(bytes, at + 1, (depth - 1) as nat)
        }
    } else {
        group_end(bytes, at + 1, depth)
    }
}

impl File {
    /// The bytes of the contents.
    pub open spec fn bytes(&self) -> Seq<u8> {
        encode_utf8(self.contents@)
    }

    /// Words that name the place `offset` bytes into the file, for messages.
    pub fn slug(&self, offset: usize) -> (s: String)
        requires
            is_char_boundary(self.bytes(), offset as int),
        ensures
            s@ == slug_text(self.path@, self.bytes().take(offset as int)),
    {
        broadcast use encode_utf8_valid_utf8;

        let bytes = self.contents.as_str().as_bytes();
        let mut lines: usize = 0;
        let mut tail: usize = 0;
        let mut i: usize = 0;
        assert(offset <= bytes@.len()) by {
            reveal_with_fuel(is_char_boundary, 1);
        }
        while i < offset
            invariant
                offset <= bytes@.len(),
                i <= offset,
                lines == line_feeds(bytes@.take(i as int)),
                tail == after_last_line_feed(bytes@.take(i as int)),
                lines + tail <= i,
            decreases offset - i,
        {
            proof {
                assert(bytes@.take(i + 1).drop_last() =~= bytes@.take(i as int));
                assert(bytes@.take(i + 1).last() == bytes@[i as int]);
            }
            if bytes[i] == LINE_FEED {
                lines += 1;
                tail = 0;
            } else {
                tail += 1;
            }
            i += 1;
        }
        let line_number: usize = if tail > 0 {
            lines + 1
        } else {
            lines
        };
        let mut s = self.path.clone();
        push_char(&mut s, ':');
        push_decimal(&mut s, line_number as u128);
        push_char(&mut s, ':');
        push_decimal(&mut s, tail as u128 + 1);
        push_char(&mut s, ':');
        assert(s@ =~= slug_text(self.path@, self.bytes().take(offset as int)));
        s
    }

    /// The text from `offset` up to the end of the group of tokens that
    /// holds it: up to the first closing bracket that matches no opening
    /// bracket after `offset`, or up to the end of the file.
    pub fn rust_slice_from(&self, offset: usize) -> (s: &str)
        requires
            is_char_boundary(self.bytes(), offset as int),
        ensures
            s.spec_bytes() == self.bytes().subrange(
                offset as int,
                group_end(self.bytes(), offset as int, 0),
            ),
    {
        broadcast use encode_utf8_valid_utf8;

        let contents = self.contents.as_str();
        let bytes = contents.as_bytes();
        let n = bytes.len();
        assert(offset <= n) by {
            reveal_with_fuel(is_char_boundary, 1);
        }
        let mut depth: usize = 0;
        let mut i: usize = offset;
        let mut found = false;
        while i < n && !found
            invariant
                n == bytes@.len(),
                offset <= i <= n,
                depth <= i - offset,
                !found ==> group_end(bytes@, offset as int, 0) == group_end(
                    bytes@,
                    i as int,
                    depth as nat,
                ),
                found ==> i < n && closes(bytes@[i as int]) && group_end(bytes@, offset as int, 0)
                    == i,
            decreases
                (n - i) + if found {
                    0int
                } else {
                    1int
                },
        {
            let b = bytes[i];
            if b == 0x7b || b == 0x5b || b == 0x28 {
                depth += 1;
                i += 1;
            } else if b == 0x7d || b == 0x5d || b == 0x29 {
                if depth == 0 {
                    found = true;
                } else {
                    depth -= 1;
                    i += 1;
                }
            } else {
                i += 1;
            }
        }
        let (_, rest) = contents.split_at(offset);
        proof {
            valid_utf8_split(bytes@, offset as int);
            if found {
                is_char_boundary_iff_not_is_continuation_byte(rest.spec_bytes(), i - offset);
            } else {
                is_char_boundary_start_end_of_seq(rest.spec_bytes());
            }
        }
        let (s, _) = rest.split_at(i - offset);
        assert(s.spec_bytes() =~= bytes@.subrange(offset as int, i as int));
        s
    }
}

} // verus!
