//! Rendering of the requested metrics: each selected count in the
//! fixed order bytes, lines, words, characters, each followed by a tab,
//! and then the source name when a file was given.

use crate::content::Content;
use crate::count::{byte_count_of, character_count_of, line_count_of, word_count_of};
use crate::options::Options;
use vstd::prelude::*;
use vstd::string::StringExecFns;

verus! {

/// The decimal digit character for a value below ten.
pub open spec fn dec_digit(d: int) -> char {
    if d == 0 {
        '0'
    } else if d == 1 {
        '1'
    } else if d == 2 {
        '2'
    } else if d == 3 {
        '3'
    } else if d == 4 {
        '4'
    } else if d == 5 {
        '5'
    } else if d == 6 {
        '6'
    } else if d == 7 {
        '7'
    } else if d == 8 {
        '8'
    } else {
        '9'
    }
}

/// The usual decimal rendering of a count: most significant digit
/// first, no leading zeros (zero itself rendered as one digit).
pub open spec fn dec_str(n: nat) -> Seq<char>
    decreases n,
{
    if n < 10 {
        seq![dec_digit(n as int)]
    } else {
        dec_str(n / 10).push(dec_digit((n % 10) as int))
    }
}

/// The metrics selected by the options, rendered in the fixed order
/// bytes, lines, words, characters, each followed by a tab separator.
pub open spec fn report_of(s: Seq<char>, o: Options) -> Seq<char> {
    (if o.count_bytes {
        dec_str(byte_count_of(s)) + seq!['\t']
    } else {
        Seq::<char>::empty()
    }) + (if o.count_lines {
        dec_str(line_count_of(s)) + seq!['\t']
    } else {
        Seq::<char>::empty()
    }) + (if o.count_words {
        dec_str(word_count_of(s)) + seq!['\t']
    } else {
        Seq::<char>::empty()
    }) + (if o.count_chars {
        dec_str(character_count_of(s)) + seq!['\t']
    } else {
        Seq::<char>::empty()
    })
}

/// The complete output for one invocation: the selected metrics,
/// followed by the source name (with no separator before it) when the
/// input came from a file, and by nothing when it came from standard
/// input.
pub open spec fn output_of(s: Seq<char>, o: Options) -> Seq<char> {
    report_of(s, o) + (match o.filename {
        Some(f) => f@,
        None => Seq::<char>::empty(),
    })
}

/// The one-character string for a decimal digit.
fn digit_str(d: u64) -> (r: &'static str)
    requires
        d < 10,
    ensures
        r@ == seq![dec_digit(d as int)],
{
    proof {
        reveal_strlit("0");
        reveal_strlit("1");
        reveal_strlit("2");
        reveal_strlit("3");
        reveal_strlit("4");
        reveal_strlit("5");
        reveal_strlit("6");
        reveal_strlit("7");
        reveal_strlit("8");
        reveal_strlit("9");
    }
    let r: &'static str = if d == 0 {
        "0"
    } else if d == 1 {
        "1"
    } else if d == 2 {
        "2"
    } else if d == 3 {
        "3"
    } else if d == 4 {
        "4"
    } else if d == 5 {
        "5"
    } else if d == 6 {
        "6"
    } else if d == 7 {
        "7"
    } else if d == 8 {
        "8"
    } else {
        "9"
    };
    proof {
        assert(r@ =~= seq![dec_digit(d as int)]);
    }
    r
}

/// Appends the decimal rendering of `n` to the output.
fn push_decimal(out: &mut String, n: u64)
    ensures
        final (out)@ == old(out)@ + dec_str(n as nat),
    decreases n,
{
    if n >= 10 {
        push_decimal(out, n / 10);
    }
    let d = digit_str(n % 10);
    out.append(d);
    proof {
        if n < 10 {
            assert(final (out)@ =~= old(out)@ + dec_str(n as nat));
        } else {
            assert((n / 10) as nat == (n as nat) / 10);
            assert((n % 10) as nat == (n as nat) % 10);
            assert(dec_str(n as nat) == dec_str((n as nat) / 10).push(
                dec_digit(((n as nat) % 10) as int),
            ));
            assert(final (out)@ =~= old(out)@ + dec_str(n as nat));
        }
    }
}

/// Appends the tab separator that follows each metric.
fn push_tab(out: &mut String)
    ensures
        final (out)@ == old(out)@ + seq!['\t'],
{
    proof {
        reveal_strlit("\t");
    }
    out.append("\t");
    proof {
        assert(final (out)@ =~= old(out)@ + seq!['\t']);
    }
}

/// Renders the complete output of one invocation: the metrics the
/// options request, in the fixed order bytes, lines, words,
/// characters, each suffixed with a tab, then the filename when one
/// was given.
pub fn render_output(content: &Content, opts: &Options) -> (r: String)
    ensures
        r@ == output_of(content@, *opts),
{
    let mut out = String::new();
    if opts.count_bytes {
        push_decimal(&mut out, content.byte_count());
        push_tab(&mut out);
    }
    if opts.count_lines {
        push_decimal(&mut out, content.line_count());
        push_tab(&mut out);
    }
    if opts.count_words {
        push_decimal(&mut out, content.word_count());
        push_tab(&mut out);
    }
    if opts.count_chars {
        push_decimal(&mut out, content.character_count());
        push_tab(&mut out);
    }
    match &opts.filename {
        Some(f) => {
            out.append(f.as_str());
        },
        None => {},
    }
    proof {
        assert(out@ =~= output_of(content@, *opts));
    }
    out
}

} // verus!
