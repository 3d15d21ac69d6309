//! Small operations on text.

use vstd::prelude::*;
use vstd::string::StrSliceExecFns;

verus! {

/// `s` without the run of `c` at its end.
pub open spec fn trim_end(s: Seq<char>, c: char) -> Seq<char>
    decreases s.len(),
{
    if s.len() > 0 && s.last() == c {
        trim_end(s.drop_last(), c)
    } else {
        s
    }
}

/// Trimming keeps a prefix of the text, and what it keeps does not end in `c`.
pub proof fn lemma_trim_end_is_prefix(s: Seq<char>, c: char)
    ensures
        trim_end(s, c).is_prefix_of(s),
        trim_end(s, c).len() > 0 ==> trim_end(s, c).last() != c,
        forall|i: int| trim_end(s, c).len() <= i < s.len() ==> s[i] == c,
    decreases s.len(),
{
    if s.len() > 0 && s.last() == c {
        let rest = s.drop_last();
        lemma_trim_end_is_prefix(rest, c);
        assert forall|i: int| trim_end(s, c).len() <= i < s.len() implies s[i] == c by {
            if i < rest.len() {
                assert(rest[i] == c);
            }
        }
    }
}

/// Removes every `c` that stands at the end of `s`.
pub fn trim_end_matches<'a>(s: &'a str, c: char) -> (trimmed: &'a str)
    ensures
        trimmed@ == trim_end(s@, c),
{
    let mut keep: usize = s.unicode_len();
    assert(s@.take(keep as int) == s@);
    while keep > 0 && s.get_char(keep - 1) == c
        invariant
            keep <= s@.len(),
            trim_end(s@, c) == trim_end(s@.take(keep as int), c),
        decreases keep,
    {
        assert(s@.take(keep as int).drop_last() == s@.take(keep - 1));
        keep = keep - 1;
    }
    s.substring_char(0, keep)
}

/// Whether `s` begins with `prefix`.
pub fn starts_with(s: &str, prefix: &str) -> (yes: bool)
    ensures
        yes == prefix@.is_prefix_of(s@),
{
    let wanted: usize = prefix.unicode_len();
    if s.unicode_len() < wanted {
        return false;
    }
    let mut at: usize = 0;
    while at < wanted
        invariant
            at <= wanted,
            wanted == prefix@.len(),
            wanted <= s@.len(),
            forall|i: int| 0 <= i < at ==> s@[i] == prefix@[i],
        decreases wanted - at,
    {
        if s.get_char(at) != prefix.get_char(at) {
            return false;
        }
        at = at + 1;
    }
    assert(prefix@ =~= s@.subrange(0, prefix@.len() as int));
    true
}

/// Whether two texts are the same.
pub fn same_text(left: &str, right: &str) -> (same: bool)
    ensures
        same == (left@ == right@),
{
    if left.unicode_len() != right.unicode_len() {
        return false;
    }
    let same = starts_with(left, right);
    assert(left@.subrange(0, left@.len() as int) == left@);
    same
}

} // verus!
