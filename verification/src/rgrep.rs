//! A grep: keeps the lines that contain a pattern, to print them or count them.
use vstd::prelude::*;

use crate::text::{chars_of, contains, strings_of};

verus! {

/// What to do with the matching lines.
#[derive(Clone, Copy, Debug, PartialEq, Eq, Structural)]
pub enum OutputMode {
    Print,
    SortAndPrint,
    Count,
}

/// The files to search, the pattern to look for, and the output mode.
pub struct Options {
    pub files: Vec<String>,
    pub pattern: String,
    pub output_mode: OutputMode,
}

/// The lines of `lines` that contain `pat`, in order.
pub open spec fn matching_lines(lines: Seq<Seq<char>>, pat: Seq<char>) -> Seq<Seq<char>>
    decreases lines.len(),
{
    if lines.len() == 0 {
        Seq::<Seq<char>>::empty()
    } else {
        let kept = matching_lines(lines.drop_last(), pat);
        if contains(lines.last(), pat) {
            kept.push(lines.last())
        } else {
            kept
        }
    }
}

/// Whether `line` contains the pattern of `options`.
pub fn line_matches(options: &Options, line: &str) -> (b: bool)
    ensures
        b == contains(line@, options.pattern@),
{
    let line_chars = chars_of(line);
    let pattern_chars = chars_of(options.pattern.as_str());
    crate::text::contains_chars(line_chars.as_slice(), pattern_chars.as_slice())
}

/// The lines that contain the pattern of `options`, in order.
pub fn filter_lines(options: &Options, lines: Vec<String>) -> (r: Vec<String>)
    ensures
        strings_of(r@) == matching_lines(strings_of(lines@), options.pattern@),
{
    let ghost all = strings_of(lines@);
    let mut kept: Vec<String> = Vec::new();
    let mut i: usize = 0;
    while i < lines.len()
        invariant
            i <= lines@.len(),
            all == strings_of(lines@),
            strings_of(kept@) == matching_lines(all.take(i as int), options.pattern@),
        decreases lines@.len() - i,
    {
        let line = &lines[i];
        let ghost t = all.take(i + 1);
        assert(t.drop_last() == all.take(i as int));
        assert(t.last() == line@);
        if line_matches(options, line.as_str()) {
            kept.push(line.clone());
            assert(strings_of(kept@) == matching_lines(all.take(i as int), options.pattern@).push(
                line@,
            ));
        }
        i += 1;
    }
    assert(all.take(lines@.len() as int) == all);
    kept
}

/// Law: every kept line contains the pattern, and every line that contains the
/// pattern is kept.
pub proof fn law_filter_keeps_exactly_matches(lines: Seq<Seq<char>>, pat: Seq<char>)
    ensures
        forall|i: int|
            0 <= i < matching_lines(lines, pat).len() ==> contains(
                #[trigger] matching_lines(lines, pat)[i],
                pat,
            ),
        forall|i: int|
            0 <= i < lines.len() && contains(#[trigger] lines[i], pat) ==> matching_lines(
                lines,
                pat,
            ).contains(lines[i]),
        matching_lines(lines, pat).len() <= lines.len(),
    decreases lines.len(),
{
    if lines.len() > 0 {
        let p = lines.drop_last();
        law_filter_keeps_exactly_matches(p, pat);
        let kept = matching_lines(p, pat);
        assert forall|i: int|
            0 <= i < lines.len() && contains(#[trigger] lines[i], pat) implies matching_lines(
            lines,
            pat,
        ).contains(lines[i]) by {
            if i < lines.len() - 1 {
                assert(p[i] == lines[i]);
                let k = choose|k: int| 0 <= k < kept.len() && kept[k] == p[i];
                assert(matching_lines(lines, pat)[k] == lines[i]);
            } else {
                assert(matching_lines(lines, pat)[kept.len() as int] == lines[i]);
            }
        }
    }
}

} // verus!
