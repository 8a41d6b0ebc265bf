//! The resolved options record: which metrics to report, and where the
//! input comes from.

use vstd::prelude::*;

verus! {

/// A fully-resolved options record. Absence of a filename means the
/// input is read from standard input.
pub struct Options {
    pub count_bytes: bool,
    pub count_lines: bool,
    pub count_words: bool,
    pub count_chars: bool,
    pub filename: Option<String>,
}

impl Options {
    /// A resolved record always requests at least one metric.
    pub open spec fn wf(&self) -> bool {
        self.count_bytes || self.count_lines || self.count_words || self.count_chars
    }

    /// Builds the resolved record from the parsed switches, applying
    /// the default rule: when no counting switch is set, report bytes,
    /// lines and words (and not characters); otherwise keep the
    /// switches exactly as given.
    pub fn resolve(
        count_bytes: bool,
        count_lines: bool,
        count_words: bool,
        count_chars: bool,
        filename: Option<String>,
    ) -> (o: Options)
        ensures
            o.wf(),
            (!count_bytes && !count_lines && !count_words && !count_chars) ==> (o.count_bytes
                && o.count_lines && o.count_words && !o.count_chars),
            (count_bytes || count_lines || count_words || count_chars) ==> (o.count_bytes
                == count_bytes && o.count_lines == count_lines && o.count_words == count_words
                && o.count_chars == count_chars),
            o.filename == filename,
    {
        if !count_bytes && !count_lines && !count_words && !count_chars {
            Options {
                count_bytes: true,
                count_lines: true,
                count_words: true,
                count_chars: false,
                filename,
            }
        } else {
            Options { count_bytes, count_lines, count_words, count_chars, filename }
        }
    }
}

} // verus!
