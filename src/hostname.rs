use vstd::prelude::*;

use crate::text::{first_line, first_line_of, lemma_first_line_is_prefix};

verus! {

/// The first line holds no newline.
pub proof fn lemma_first_line_has_no_newline(s: Seq<char>)
    ensures
        forall|j: int| 0 <= j < first_line(s).len() ==> first_line(s)[j] != '\n',
    decreases s.len(),
{
    if s.len() > 0 && s[0] != '\n' {
        lemma_first_line_has_no_newline(s.drop_first());
        let r = first_line(s);
        let t = first_line(s.drop_first());
        assert forall|j: int| 0 <= j < r.len() implies r[j] != '\n' by {
            if j > 0 {
                assert(r[j] == t[j - 1]);
            }
        }
    }
}

/// Taking the hostname out of text that is already a hostname gives it back:
/// extraction is idempotent.
pub proof fn lemma_hostname_idempotent(s: Seq<char>)
    ensures
        first_line(first_line(s)) == first_line(s),
{
    let r = first_line(s);
    lemma_first_line_has_no_newline(s);
    lemma_first_line_is_prefix(r, r.len() as int);
    assert(r.take(r.len() as int) =~= r);
}

/// The hostname held in the contents of a hostname file: everything before the
/// first newline, or the whole text where there is no newline.
pub fn hostname_from_file(contents: &str) -> (r: String)
    ensures
        r@ == first_line(contents@),
{
    first_line_of(contents)
}

} // verus!
