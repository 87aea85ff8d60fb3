//! Text normalization: stripping Unicode combining marks from a word.

use vstd::prelude::*;
use vstd::string::StrSliceExecFns;
use crate::strings::push_char;

verus! {

/// Whether a code point is a Unicode combining mark (general category Mn).
/// Membership in that category is a fixed property of each code point; the
/// tables live in the regex engine, so the predicate is left uninterpreted
/// and pinned down only by `char_is_combining_mark`.
pub uninterp spec fn is_combining_mark(c: char) -> bool;

/// Relies on `regex::Regex::is_match` with the pattern `\p{Mn}`: it matches
/// a one-character string exactly when that character belongs to Unicode
/// general category Mn. The pattern is a valid literal, so `Regex::new`
/// cannot fail.
#[verifier::external_body]
fn char_is_combining_mark(c: char) -> (r: bool)
    ensures
        r == is_combining_mark(c),
{
    let mut buf = [0u8; 4];
    let s: &str = c.encode_utf8(&mut buf);
    regex::Regex::new(r"\p{Mn}").unwrap().is_match(s)
}

/// The normalized form of a word: the same characters in the same order,
/// with every combining mark removed.
pub open spec fn strip_marks(s: Seq<char>) -> Seq<char>
    decreases s.len(),
{
    if s.len() == 0 {
        Seq::empty()
    } else if is_combining_mark(s.last()) {
        strip_marks(s.drop_last())
    } else {
        strip_marks(s.drop_last()).push(s.last())
    }
}

/// Strips every combining-mark code point from a word, preserving the order
/// and identity of all other code points.
pub fn strip_acute(word: &str) -> (r: String)
    ensures
        r@ == strip_marks(word@),
{
    let n = word.unicode_len();
    let mut out = String::new();
    let mut i: usize = 0;
    while i < n
        invariant
            n == word@.len(),
            i <= n,
            out@ == strip_marks(word@.subrange(0, i as int)),
        decreases n - i,
    {
        let c = word.get_char(i);
        if !char_is_combining_mark(c) {
            push_char(&mut out, c);
        }
        i += 1;
        proof {
            let prefix = word@.subrange(0, i as int);
            assert(prefix.drop_last() =~= word@.subrange(0, i - 1));
            assert(prefix.last() == word@[i - 1]);
        }
    }
    proof {
        assert(word@.subrange(0, n as int) =~= word@);
    }
    out
}

/// The normalized form of a word holds no combining mark.
pub proof fn lemma_strip_marks_leaves_no_marks(s: Seq<char>)
    ensures
        forall|i: int| 0 <= i < strip_marks(s).len() ==> !is_combining_mark(#[trigger] strip_marks(s)[i]),
    decreases s.len(),
{
    if s.len() > 0 {
        lemma_strip_marks_leaves_no_marks(s.drop_last());
        if !is_combining_mark(s.last()) {
            let t = strip_marks(s.drop_last());
            assert forall|i: int|
                0 <= i < strip_marks(s).len() implies !is_combining_mark(
                #[trigger] strip_marks(s)[i],
            ) by {
                if i < t.len() {
                    assert(strip_marks(s)[i] == t[i]);
                } else {
                    assert(strip_marks(s)[i] == s.last());
                }
            }
        }
    }
}

/// A word with no combining mark is already normalized.
pub proof fn lemma_strip_marks_of_clean(s: Seq<char>)
    requires
        forall|i: int| 0 <= i < s.len() ==> !is_combining_mark(#[trigger] s[i]),
    ensures
        strip_marks(s) == s,
    decreases s.len(),
{
    if s.len() == 0 {
        assert(strip_marks(s) =~= s);
    } else {
        lemma_strip_marks_of_clean(s.drop_last());
        assert(strip_marks(s) =~= s);
    }
}

/// Normalization is idempotent: stripping an already-stripped word
/// changes nothing.
pub proof fn lemma_strip_marks_idempotent(s: Seq<char>)
    ensures
        strip_marks(strip_marks(s)) == strip_marks(s),
{
    lemma_strip_marks_leaves_no_marks(s);
    lemma_strip_marks_of_clean(strip_marks(s));
}

} // verus!
