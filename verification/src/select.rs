//! Selecting the best-scored record, first-occurrence-wins among ties.

use vstd::prelude::*;
use crate::record::Pronunciation;

verus! {

/// The index of the record a left-to-right scan keeps when it replaces its
/// candidate only on a strictly greater score: the first occurrence of the
/// maximum score.
pub open spec fn first_max_index(s: Seq<Pronunciation>) -> int
    recommends
        s.len() > 0,
    decreases s.len(),
{
    if s.len() <= 1 {
        0
    } else {
        let j = first_max_index(s.drop_last());
        if s.last().score > s[j].score {
            s.len() - 1
        } else {
            j
        }
    }
}

/// `first_max_index` points at a maximal score, and at its first occurrence:
/// every record is scored at most as high, and every earlier record is scored
/// strictly lower.
pub proof fn lemma_first_max_index(s: Seq<Pronunciation>)
    requires
        s.len() > 0,
    ensures
        0 <= first_max_index(s) < s.len(),
        forall|i: int| 0 <= i < s.len() ==> (#[trigger] s[i].score) <= s[first_max_index(s)].score,
        forall|i: int| 0 <= i < first_max_index(s) ==> (#[trigger] s[i].score) < s[first_max_index(s)].score,
    decreases s.len(),
{
    if s.len() > 1 {
        let t = s.drop_last();
        let j = first_max_index(t);
        let k = first_max_index(s);
        lemma_first_max_index(t);
        assert(forall|i: int| 0 <= i < s.len() - 1 ==> s[i] == #[trigger] t[i]);
        assert forall|i: int| 0 <= i < s.len() implies (#[trigger] s[i].score) <= s[k].score by {
            if i < s.len() - 1 {
                assert(t[i].score <= t[j].score);
            }
        }
        assert forall|i: int| 0 <= i < k implies (#[trigger] s[i].score) < s[k].score by {
            if k == s.len() - 1 {
                assert(t[i].score <= t[j].score);
            } else {
                assert(t[i].score < t[j].score);
            }
        }
    }
}

/// Find the record with the highest score; among equal scores the first in
/// input order wins. On an empty input there is no candidate.
pub fn find_highest_score(pronunciations: &[Pronunciation]) -> (r: Option<&Pronunciation>)
    ensures
        match r {
            None => pronunciations@.len() == 0,
            Some(p) => {
                &&& pronunciations@.len() > 0
                &&& *p == pronunciations@[first_max_index(pronunciations@)]
            },
        },
{
    if pronunciations.len() == 0 {
        return None;
    }
    let ghost all = pronunciations@;
    let mut best: usize = 0;
    let mut i: usize = 1;
    proof {
        assert(all.subrange(0, 1).len() == 1);
    }
    while i < pronunciations.len()
        invariant
            all == pronunciations@,
            1 <= i <= all.len(),
            best < i,
            best == first_max_index(all.subrange(0, i as int)),
        decreases all.len() - i,
    {
        if pronunciations[i].score > pronunciations[best].score {
            best = i;
        }
        i += 1;
        proof {
            let prefix = all.subrange(0, i as int);
            assert(prefix.drop_last() =~= all.subrange(0, i - 1));
            assert(prefix.last() == all[i - 1]);
        }
    }
    proof {
        assert(all.subrange(0, all.len() as int) =~= all);
    }
    Some(&pronunciations[best])
}

} // verus!
