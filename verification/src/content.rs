//! The content snapshot and the four counting passes over it.

use crate::count::{
    byte_count_of, character_count_of, is_space, line_count_of, newline_count, starts_word,
    word_count_of,
};
use vstd::prelude::*;
use vstd::string::StrSliceExecFns;
use vstd::utf8::encode_utf8;

verus! {

/// A single, immutable materialization of the input text; every
/// requested metric is computed from this one buffer.
pub struct Content {
    text: String,
}

impl View for Content {
    type V = Seq<char>;

    closed spec fn view(&self) -> Seq<char> {
        self.text@
    }
}

/// Relies on `str::len`: the number of bytes in the string's UTF-8
/// encoding, which always fits in `usize`.
#[verifier::external_body]
fn utf8_len(s: &str) -> (n: usize)
    ensures
        n == encode_utf8(s@).len(),
{
    s.len()
}

/// Whether the character has the Unicode `White_Space` property; agrees
/// with the spec predicate [`is_space`].
fn is_space_char(c: char) -> (r: bool)
    ensures
        r == is_space(c),
{
    let u = c as u32;
    u == 0x20 || (0x09 <= u && u <= 0x0D) || u == 0x85 || u == 0xA0 || u == 0x1680 || (0x2000 <= u
        && u <= 0x200A) || u == 0x2028 || u == 0x2029 || u == 0x202F || u == 0x205F || u == 0x3000
}

impl Content {
    /// Takes a snapshot of a fully-materialized text buffer.
    pub fn from_text(text: String) -> (c: Content)
        ensures
            c@ == text@,
    {
        Content { text }
    }

    /// The length of the content in raw storage units, independent of
    /// text encoding interpretation.
    pub fn byte_count(&self) -> (r: u64)
        ensures
            r == byte_count_of(self@),
    {
        utf8_len(self.text.as_str()) as u64
    }

    /// The number of line-terminated segments, a trailing segment
    /// without a final terminator still counting as a line.
    pub fn line_count(&self) -> (r: u64)
        ensures
            r == line_count_of(self@),
    {
        let s: &str = self.text.as_str();
        let n: usize = s.unicode_len();
        let mut newlines: u64 = 0;
        let mut i: usize = 0;
        while i < n
            invariant
                s@ == self@,
                n == self@.len(),
                i <= n,
                newlines == newline_count(self@.take(i as int)),
                newlines <= i,
            decreases n - i,
        {
            let c = s.get_char(i);
            proof {
                assert(self@.take(i + 1).drop_last() =~= self@.take(i as int));
                assert(self@.take(i + 1).last() == self@[i as int]);
            }
            if c == '\n' {
                newlines = newlines + 1;
            }
            i = i + 1;
        }
        proof {
            assert(self@.take(n as int) =~= self@);
        }
        if n == 0 {
            0
        } else {
            let last = s.get_char(n - 1);
            if last == '\n' {
                newlines
            } else {
                proof {
                    crate::count::lemma_newline_count_le_len(self@.drop_last());
                    assert(self@.last() == self@[n - 1]);
                    assert(newline_count(self@) <= self@.len() - 1);
                }
                newlines + 1
            }
        }
    }

    /// The number of maximal runs of non-whitespace characters.
    pub fn word_count(&self) -> (r: u64)
        ensures
            r == word_count_of(self@),
    {
        let s: &str = self.text.as_str();
        let n: usize = s.unicode_len();
        let mut words: u64 = 0;
        let mut prev_space = true;
        let mut i: usize = 0;
        while i < n
            invariant
                s@ == self@,
                n == self@.len(),
                i <= n,
                words == word_count_of(self@.take(i as int)),
                words <= i,
                prev_space == (i == 0 || is_space(self@[i - 1])),
            decreases n - i,
        {
            let c = s.get_char(i);
            let space = is_space_char(c);
            proof {
                assert(self@.take(i + 1).drop_last() =~= self@.take(i as int));
                assert(self@.take(i + 1).last() == self@[i as int]);
            }
            if !space && prev_space {
                words = words + 1;
            }
            prev_space = space;
            i = i + 1;
        }
        proof {
            assert(self@.take(n as int) =~= self@);
        }
        words
    }

    /// The number of Unicode scalar values in the content.
    pub fn character_count(&self) -> (r: u64)
        ensures
            r == character_count_of(self@),
    {
        self.text.as_str().unicode_len() as u64
    }
}

} // verus!
