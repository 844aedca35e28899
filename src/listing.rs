//! Turning the raw output of a directory listing into file names.

use vstd::prelude::*;
use vstd::string::{StrSliceExecFns, StringExecFns};
use vstd::utf8::{decode_utf8, valid_utf8};

verus! {

/// The text that `String::from_utf8_lossy` makes of a byte string.
pub uninterp spec fn lossy_text(b: Seq<u8>) -> Seq<char>;

/// Relies on `String::from_utf8_lossy`: the text depends on the bytes alone,
/// and bytes that are valid UTF-8 are decoded as they stand.
#[verifier::external_body]
pub(crate) fn decode_lossy(bytes: &[u8]) -> (r: String)
    ensures
        r@ == lossy_text(bytes@),
        valid_utf8(bytes@) ==> r@ == decode_utf8(bytes@),
{
    String::from_utf8_lossy(bytes).into_owned()
}

/// A line as it stood before its `'\n'`, without the `'\r'` of a `"\r\n"`.
pub open spec fn strip_cr(line: Seq<char>) -> Seq<char> {
    if line.len() > 0 && line.last() == '\r' {
        line.drop_last()
    } else {
        line
    }
}

/// Reading `s` from the left: the lines that a `'\n'` has ended, and the
/// characters of the line not yet ended.
pub open spec fn line_scan(s: Seq<char>) -> (Seq<Seq<char>>, Seq<char>)
    decreases s.len(),
{
    if s.len() == 0 {
        (Seq::empty(), Seq::empty())
    } else {
        let (done, cur) = line_scan(s.drop_last());
        if s.last() == '\n' {
            (done.push(strip_cr(cur)), Seq::empty())
        } else {
            (done, cur.push(s.last()))
        }
    }
}

/// The lines of `s`: split at each `'\n'` (a `"\r\n"` ends a line too), the
/// last line ending may be left out, and no text has no lines.
pub open spec fn lines_of(s: Seq<char>) -> Seq<Seq<char>> {
    let (done, cur) = line_scan(s);
    if cur.len() == 0 {
        done
    } else {
        done.push(cur)
    }
}

/// Splits `text` into its lines, in order.
pub fn split_lines(text: &str) -> (r: Vec<String>)
    ensures
        r.deep_view() == lines_of(text@),
{
    let len = text.unicode_len();
    let mut lines: Vec<String> = Vec::new();
    let mut start: usize = 0;
    let mut i: usize = 0;
    while i < len
        invariant
            len == text@.len(),
            start <= i <= len,
            line_scan(text@.subrange(0, i as int)) == (
                lines.deep_view(),
                text@.subrange(start as int, i as int),
            ),
        decreases len - i,
    {
        let c = text.get_char(i);
        let ghost before = text@.subrange(0, i as int);
        assert(text@.subrange(0, i as int + 1).drop_last() =~= before);
        if c == '\n' {
            let mut end = i;
            if i > start && text.get_char(i - 1) == '\r' {
                end = i - 1;
            }
            let ghost cur = text@.subrange(start as int, i as int);
            assert(strip_cr(cur) =~= text@.subrange(start as int, end as int));
            let line = String::from_str(text.substring_char(start, end));
            let ghost old_lines = lines.deep_view();
            lines.push(line);
            assert(lines.deep_view() =~= old_lines.push(strip_cr(cur)));
            start = i + 1;
            i = i + 1;
            assert(text@.subrange(start as int, i as int) =~= Seq::<char>::empty());
        } else {
            i = i + 1;
            assert(text@.subrange(start as int, i as int) =~= text@.subrange(
                start as int,
                i as int - 1,
            ).push(c));
        }
    }
    assert(text@.subrange(0, len as int) =~= text@);
    if start < len {
        let line = String::from_str(text.substring_char(start, len));
        let ghost old_lines = lines.deep_view();
        lines.push(line);
        assert(lines.deep_view() =~= old_lines.push(text@.subrange(start as int, len as int)));
    }
    lines
}

/// The file names of a listing: the lines of the command's output, read as
/// UTF-8 with invalid sequences replaced.
pub fn parse_listing(stdout: &[u8]) -> (r: Vec<String>)
    ensures
        r.deep_view() == lines_of(lossy_text(stdout@)),
{
    let text = decode_lossy(stdout);
    split_lines(text.as_str())
}

} // verus!
