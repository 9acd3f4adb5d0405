//! Splitting a text into lines.

use vstd::prelude::*;

verus! {

/// The pieces of `s` between its `'\n'` characters: one more piece than there
/// are newlines, each without its newline.
pub open spec fn newline_pieces(s: Seq<char>) -> Seq<Seq<char>>
    decreases s.len(),
{
    if s.len() == 0 {
        seq![Seq::<char>::empty()]
    } else {
        let p = newline_pieces(s.drop_last());
        if s.last() == '\n' {
            p.push(Seq::<char>::empty())
        } else {
            p.update(p.len() - 1, p.last().push(s.last()))
        }
    }
}

/// A line that ended with `"\r\n"` loses its `'\r'` too.
pub open spec fn strip_cr(line: Seq<char>) -> Seq<char> {
    if line.len() > 0 && line.last() == '\r' {
        line.drop_last()
    } else {
        line
    }
}

/// The lines of `s`: the text is cut after each `'\n'`, a final line needs no
/// newline, and an empty text has no line. A line that a newline ends holds
/// neither that newline nor a `'\r'` just before it; a last line without a
/// newline is kept as it is.
pub open spec fn lines_of(s: Seq<char>) -> Seq<Seq<char>> {
    if s.len() == 0 {
        Seq::empty()
    } else {
        let p = newline_pieces(s);
        let ended = p.drop_last().map_values(|l: Seq<char>| strip_cr(l));
        if s.last() == '\n' {
            ended
        } else {
            ended.push(p.last())
        }
    }
}

/// Relies on `str::lines`: it cuts the text at each `"\n"` and drops a `"\r"`
/// just before one; the final line ending is optional.
#[verifier::external_body]
pub(crate) fn text_lines<'a>(text: &'a str) -> (r: Vec<&'a str>)
    ensures
        r@.len() == lines_of(text@).len(),
        forall|i: int| 0 <= i < r@.len() ==> #[trigger] r@[i]@ == lines_of(text@)[i],
{
    text.lines().collect()
}

} // verus!
