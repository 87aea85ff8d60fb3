//! The pronunciation record and its deterministic scoring rule.

use vstd::prelude::*;
use crate::strings::str_eq;

verus! {

/// One candidate pronunciation recording, as parsed from the remote
/// service's response.
///
/// The derived `score` always equals `num_positive_votes` plus a bonus of 2
/// when the contributor is on the fixed allow-list of recognized users; it is
/// computed at construction time and never mutated afterward.
#[derive(Debug)]
pub struct Pronunciation {
    /// The unique ID of the pronunciation.
    pub id: i32,
    /// The number of times this pronunciation has been accessed or used.
    pub hits: i32,
    /// The username of the person who contributed this pronunciation.
    pub username: String,
    /// The URL path to the MP3 file containing the pronunciation.
    pub pathmp3: String,
    /// The number of positive votes this pronunciation has received.
    pub num_positive_votes: i32,
    /// The derived score: positive votes plus the allow-list bonus.
    pub score: i32,
}

/// The fixed allow-list of recognized contributors. Membership is by exact,
/// case-sensitive match.
pub open spec fn is_special_user(name: Seq<char>) -> bool {
    ||| name == "1640max"@
    ||| name == "Spinster"@
    ||| name == "szurzuncik"@
    ||| name == "ae5s"@
    ||| name == "Shady_arc"@
    ||| name == "zhivanova"@
    ||| name == "Selene71"@
}

/// The scoring bonus a contributor earns: 2 on the allow-list, 0 otherwise.
pub open spec fn score_bonus(name: Seq<char>) -> int {
    if is_special_user(name) {
        2
    } else {
        0
    }
}

impl Pronunciation {
    /// A record is well formed when its derived score obeys the scoring rule.
    pub open spec fn wf(self) -> bool {
        self.score == self.num_positive_votes + score_bonus(self.username@)
    }

    /// Creates a new record, computing the derived score from the votes and
    /// the contributor's allow-list bonus.
    pub fn new(
        id: i32,
        hits: i32,
        username: String,
        pathmp3: String,
        num_positive_votes: i32,
    ) -> (r: Self)
        requires
            num_positive_votes + score_bonus(username@) <= i32::MAX,
        ensures
            r.id == id,
            r.hits == hits,
            r.username == username,
            r.pathmp3 == pathmp3,
            r.num_positive_votes == num_positive_votes,
            r.score == num_positive_votes + score_bonus(username@),
            r.wf(),
    {
        let score = num_positive_votes + Self::calculate_score_increment(username.as_str());
        Self { id, hits, username, pathmp3, num_positive_votes, score }
    }

    /// The allow-list bonus for a contributor name.
    pub(crate) fn calculate_score_increment(username: &str) -> (r: i32)
        ensures
            r == score_bonus(username@),
    {
        if str_eq(username, "1640max") || str_eq(username, "Spinster") || str_eq(
            username,
            "szurzuncik",
        ) || str_eq(username, "ae5s") || str_eq(username, "Shady_arc") || str_eq(
            username,
            "zhivanova",
        ) || str_eq(username, "Selene71") {
            2
        } else {
            0
        }
    }
}

impl PartialEq for Pronunciation {
    fn eq(&self, other: &Self) -> (r: bool) {
        self.id == other.id && self.hits == other.hits && self.username == other.username
            && self.pathmp3 == other.pathmp3 && self.num_positive_votes == other.num_positive_votes
            && self.score == other.score
    }
}

impl vstd::std_specs::cmp::PartialEqSpecImpl for Pronunciation {
    open spec fn obeys_eq_spec() -> bool {
        true
    }

    open spec fn eq_spec(&self, other: &Self) -> bool {
        self.id == other.id && self.hits == other.hits && self.username@ == other.username@
            && self.pathmp3@ == other.pathmp3@ && self.num_positive_votes
            == other.num_positive_votes && self.score == other.score
    }
}

} // verus!
