//! Lines of input: a line counts without the white space at its two ends,
//! and a line that holds nothing else does not count at all.

use vstd::prelude::*;
use vstd::string::*;

verus! {

/// Whether a character is white space: whether Unicode marks it as
/// `White_Space`, which is what `char::is_whitespace` tells.
pub uninterp spec fn white_space(c: char) -> bool;

/// The line holds nothing but white space.
pub open spec fn blank(line: Seq<char>) -> bool {
    forall|k: int| 0 <= k < line.len() ==> white_space(#[trigger] line[k])
}

/// The part of the line from `from` up to `to` is the line without the
/// white space at its two ends.
pub open spec fn cuts(line: Seq<char>, from: int, to: int) -> bool {
    &&& 0 <= from <= to <= line.len()
    &&& forall|k: int| 0 <= k < from ==> white_space(#[trigger] line[k])
    &&& forall|k: int| to <= k < line.len() ==> white_space(#[trigger] line[k])
    &&& from < to ==> !white_space(line[from]) && !white_space(line[to - 1])
}

/// `inner` is the line without the white space at its two ends.
pub open spec fn trims_to(line: Seq<char>, inner: Seq<char>) -> bool {
    exists|from: int, to: int| cuts(line, from, to) && inner == #[trigger] line.subrange(from, to)
}

/// A line is trimmed to one thing only.
pub proof fn lemma_trim_unique(line: Seq<char>, a: Seq<char>, b: Seq<char>)
    requires
        trims_to(line, a),
        trims_to(line, b),
    ensures
        a == b,
{
    let (i, j) = choose|i: int, j: int| cuts(line, i, j) && a == #[trigger] line.subrange(i, j);
    let (m, n) = choose|m: int, n: int| cuts(line, m, n) && b == #[trigger] line.subrange(m, n);
    if i < j {
        assert(!white_space(line[i]));
        assert(!white_space(line[j - 1]));
        assert(m < n);
        assert(!white_space(line[m]));
        assert(!white_space(line[n - 1]));
        assert(i == m);
        assert(j == n);
    } else {
        if m < n {
            assert(!white_space(line[m]));
        }
        assert(a =~= b);
    }
}

/// A line is trimmed to nothing just when it is blank.
pub proof fn lemma_trim_blank(line: Seq<char>, inner: Seq<char>)
    requires
        trims_to(line, inner),
    ensures
        inner.len() == 0 <==> blank(line),
{
    let (i, j) = choose|i: int, j: int| cuts(line, i, j) && inner == #[trigger] line.subrange(
        i,
        j,
    );
    if i < j {
        assert(!white_space(line[i]));
    } else {
        assert forall|k: int| 0 <= k < line.len() implies white_space(#[trigger] line[k]) by {
            if k < i {
            } else {
            }
        }
    }
}

/// `str::trim`: the slice of the line that is left when the white space at
/// its start and at its end is taken away. Believed of the standard
/// library, not proved here.
#[verifier::external_body]
fn trim(line: &str) -> (r: &str)
    ensures
        trims_to(line@, r@),
        r@.len() > 0 ==> !white_space(r@.first()) && !white_space(r@.last()),
{
    line.trim()
}

/// The line as it counts: without the white space at its two ends, and
/// none where nothing is left of it.
pub fn clean_line(raw: &str) -> (r: Option<String>)
    ensures
        r is None <==> blank(raw@),
        r matches Some(line) ==> line@.len() > 0 && trims_to(raw@, line@),
{
    let inner = trim(raw);
    proof {
        lemma_trim_blank(raw@, inner@);
    }
    if inner.is_empty() {
        None
    } else {
        Some(inner.to_owned())
    }
}

} // verus!
