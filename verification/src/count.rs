//! Mathematical definitions of the four text metrics, together with the
//! laws that relate them.
//!
//! Content is modelled as a sequence of Unicode scalar values
//! (`Seq<char>`); the byte metric is defined through vstd's model of the
//! UTF-8 encoding.

use vstd::prelude::*;
use vstd::utf8::{encode_scalar, encode_utf8};

verus! {

/// Number of bytes in the UTF-8 encoding of the given characters.
pub open spec fn byte_count_of(s: Seq<char>) -> nat {
    encode_utf8(s).len()
}

/// Number of Unicode scalar values in the content.
pub open spec fn character_count_of(s: Seq<char>) -> nat {
    s.len()
}

/// Whether the character's UTF-8 encoding occupies a single byte: the
/// ASCII range.
pub open spec fn single_byte(c: char) -> bool {
    c as u32 <= 0x7F
}

/// Whether the content is entirely single-byte-encoded (true of empty
/// content).
pub open spec fn all_single_byte(s: Seq<char>) -> bool {
    forall|i: int| 0 <= i < s.len() ==> single_byte(#[trigger] s[i])
}

/// Whether the character has the Unicode `White_Space` property: the
/// separators between words (spaces, tabs, line breaks and the other
/// standard whitespace code points).
pub open spec fn is_space(c: char) -> bool {
    let u = c as u32;
    ||| u == 0x20
    ||| (0x09 <= u && u <= 0x0D)
    ||| u == 0x85
    ||| u == 0xA0
    ||| u == 0x1680
    ||| (0x2000 <= u && u <= 0x200A)
    ||| u == 0x2028
    ||| u == 0x2029
    ||| u == 0x202F
    ||| u == 0x205F
    ||| u == 0x3000
}

/// Whether every character of the content is whitespace (true of empty
/// content).
pub open spec fn all_space(s: Seq<char>) -> bool {
    forall|i: int| 0 <= i < s.len() ==> is_space(#[trigger] s[i])
}

/// Number of line terminators in the content.
pub open spec fn newline_count(s: Seq<char>) -> nat
    decreases s.len(),
{
    if s.len() == 0 {
        0
    } else {
        newline_count(s.drop_last()) + (if s.last() == '\n' {
            1nat
        } else {
            0nat
        })
    }
}

/// Number of lines in the content: every line terminator ends one line,
/// and a final fragment without a terminator still counts as a line.
pub open spec fn line_count_of(s: Seq<char>) -> nat {
    if s.len() == 0 {
        0
    } else if s.last() == '\n' {
        newline_count(s)
    } else {
        newline_count(s) + 1
    }
}

/// Whether index `i` begins a word: a non-whitespace character that is
/// not preceded by another non-whitespace character.
pub open spec fn starts_word(s: Seq<char>, i: int) -> bool {
    &&& 0 <= i < s.len()
    &&& !is_space(s[i])
    &&& (i == 0 || is_space(s[i - 1]))
}

/// Number of words in the content: maximal runs of non-whitespace
/// characters, counted by their first character.
pub open spec fn word_count_of(s: Seq<char>) -> nat
    decreases s.len(),
{
    if s.len() == 0 {
        0
    } else {
        word_count_of(s.drop_last()) + (if starts_word(s, s.len() - 1) {
            1nat
        } else {
            0nat
        })
    }
}

/// The fragments produced by splitting the content on line terminators:
/// a terminator closes the fragment before it, and a final unterminated
/// fragment is kept.
pub open spec fn split_lines(s: Seq<char>) -> Seq<Seq<char>>
    decreases s.len(),
{
    if s.len() == 0 {
        Seq::empty()
    } else {
        let t = s.drop_last();
        let prev = split_lines(t);
        let open_fragment = t.len() > 0 && t.last() != '\n';
        if s.last() == '\n' {
            if open_fragment {
                prev
            } else {
                prev.push(Seq::empty())
            }
        } else {
            if open_fragment {
                prev.update(prev.len() - 1, prev.last().push(s.last()))
            } else {
                prev.push(seq![s.last()])
            }
        }
    }
}

/// There are never more line terminators than characters.
pub proof fn lemma_newline_count_le_len(s: Seq<char>)
    ensures
        newline_count(s) <= s.len(),
    decreases s.len(),
{
    if s.len() > 0 {
        lemma_newline_count_le_len(s.drop_last());
    }
}

/// The byte count never falls below the character count, and the two
/// agree exactly when the content is entirely single-byte-encoded
/// (ASCII).
pub proof fn lemma_byte_count_vs_character_count(s: Seq<char>)
    ensures
        byte_count_of(s) >= character_count_of(s),
        byte_count_of(s) == character_count_of(s) <==> all_single_byte(s),
    decreases s.len(),
{
    if s.len() == 0 {
        assert(all_single_byte(s));
    } else {
        let rest = s.drop_first();
        lemma_byte_count_vs_character_count(rest);
        assert(encode_utf8(s) == encode_scalar(s[0] as u32) + encode_utf8(rest));
        assert(encode_scalar(s[0] as u32).len() >= 1);
        assert(encode_scalar(s[0] as u32).len() == 1 <==> single_byte(s[0]));
        assert(all_single_byte(s) <==> (single_byte(s[0]) && all_single_byte(rest))) by {
            if single_byte(s[0]) && all_single_byte(rest) {
                assert forall|i: int| 0 <= i < s.len() implies single_byte(#[trigger] s[i]) by {
                    if i > 0 {
                        assert(s[i] == rest[i - 1]);
                    }
                }
            }
            if all_single_byte(s) {
                assert forall|i: int| 0 <= i < rest.len() implies single_byte(
                    #[trigger] rest[i],
                ) by {
                    assert(rest[i] == s[i + 1]);
                }
            }
        }
    }
}

/// A word exists exactly where a non-whitespace character exists: the
/// word count is zero if and only if the content is entirely whitespace
/// (including empty content).
pub proof fn lemma_word_count_zero_iff_all_space(s: Seq<char>)
    ensures
        word_count_of(s) == 0 <==> all_space(s),
    decreases s.len(),
{
    if s.len() == 0 {
    } else {
        let t = s.drop_last();
        lemma_word_count_zero_iff_all_space(t);
        assert(all_space(s) <==> (all_space(t) && is_space(s.last()))) by {
            if all_space(t) && is_space(s.last()) {
                assert forall|i: int| 0 <= i < s.len() implies is_space(#[trigger] s[i]) by {
                    if i < s.len() - 1 {
                        assert(s[i] == t[i]);
                    }
                }
            }
            if all_space(s) {
                assert forall|i: int| 0 <= i < t.len() implies is_space(#[trigger] t[i]) by {
                    assert(t[i] == s[i]);
                }
            }
        }
        if !is_space(s.last()) && s.len() >= 2 && !is_space(s[s.len() - 2]) {
            assert(!all_space(t)) by {
                assert(t[s.len() - 2] == s[s.len() - 2]);
            }
        }
    }
}

/// The line count equals the number of fragments produced by splitting
/// the content on line terminators, a final unterminated fragment
/// counting as one more line.
pub proof fn lemma_line_count_is_fragment_count(s: Seq<char>)
    ensures
        line_count_of(s) == split_lines(s).len(),
    decreases s.len(),
{
    if s.len() == 0 {
    } else {
        let t = s.drop_last();
        lemma_line_count_is_fragment_count(t);
        lemma_newline_count_le_len(t);
    }
}

/// Each metric is a function of the content alone: computing it twice
/// on the same unmodified content yields the same result.
pub proof fn lemma_counts_deterministic(s1: Seq<char>, s2: Seq<char>)
    requires
        s1 == s2,
    ensures
        byte_count_of(s1) == byte_count_of(s2),
        line_count_of(s1) == line_count_of(s2),
        word_count_of(s1) == word_count_of(s2),
        character_count_of(s1) == character_count_of(s2),
{
}

} // verus!
