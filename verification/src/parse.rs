//! Converting the service's JSON payload into pronunciation records.
//!
//! Malformed input degrades to defaulted records rather than propagating an
//! error: each field is read independently and defaulted when absent or of
//! the wrong type, and a document without an `items` array yields no records.

use vstd::prelude::*;
use crate::json::{json_get, json_i64_or_zero, json_str_or_empty, JsonValue};
use crate::record::{score_bonus, Pronunciation};

verus! {

/// The ordered items of the document's top-level `items` array; empty when
/// that member is absent or not an array.
pub open spec fn json_items(v: JsonValue) -> Seq<JsonValue> {
    match json_get(v, "items"@) {
        Some(JsonValue::Arr(items)) => items@,
        _ => Seq::empty(),
    }
}

/// The positive-vote count an item parses to: its `num_positive_votes`
/// member defaulted to 0, then truncated to 32 bits.
pub open spec fn item_votes(item: JsonValue) -> i32 {
    json_i64_or_zero(item, "num_positive_votes"@) as i32
}

/// The one machine limit on an item: the votes it parses to must leave room
/// for the contributor's scoring bonus in a 32-bit score.
pub open spec fn item_score_fits(item: JsonValue) -> bool {
    item_votes(item) + score_bonus(json_str_or_empty(item, "username"@)) <= i32::MAX
}

/// How a record reflects the item it was parsed from: each field read from
/// the like-named member, defaulted when absent or of the wrong type,
/// integers truncated to 32 bits, and the score derived by the scoring rule.
pub open spec fn record_of_item(p: Pronunciation, item: JsonValue) -> bool {
    &&& p.id == json_i64_or_zero(item, "id"@) as i32
    &&& p.hits == json_i64_or_zero(item, "hits"@) as i32
    &&& p.username@ == json_str_or_empty(item, "username"@)
    &&& p.pathmp3@ == json_str_or_empty(item, "pathmp3"@)
    &&& p.num_positive_votes == item_votes(item)
    &&& p.score == item_votes(item) + score_bonus(p.username@)
}

/// Parse a single item into a record, defaulting each absent or mistyped
/// field.
pub fn parse_pronunciation_item(item: &JsonValue) -> (p: Pronunciation)
    requires
        item_score_fits(*item),
    ensures
        record_of_item(p, *item),
        p.wf(),
{
    let id = item.i64_at("id");
    let hits = item.i64_at("hits");
    let username = item.str_at("username");
    let pathmp3 = item.str_at("pathmp3");
    let num_positive_votes = item.i64_at("num_positive_votes");
    Pronunciation::new(
        #[verifier::truncate] (id as i32),
        #[verifier::truncate] (hits as i32),
        username,
        pathmp3,
        #[verifier::truncate] (num_positive_votes as i32),
    )
}

/// Whether every item of the document leaves room for its scoring bonus in a
/// 32-bit score: the one machine limit a caller checks before parsing.
pub fn all_item_scores_fit(json: &JsonValue) -> (r: bool)
    ensures
        r == forall|i: int| 0 <= i < json_items(*json).len() ==> item_score_fits(
            #[trigger] json_items(*json)[i],
        ),
{
    match json.get("items") {
        Some(v) => match v {
            JsonValue::Arr(items) => {
                let mut i: usize = 0;
                while i < items.len()
                    invariant
                        i <= items@.len(),
                        items@ == json_items(*json),
                        forall|j: int| 0 <= j < i ==> item_score_fits(#[trigger] items@[j]),
                    decreases items@.len() - i,
                {
                    if !item_fits(&items[i]) {
                        return false;
                    }
                    i += 1;
                }
                true
            },
            _ => true,
        },
        None => true,
    }
}

/// Whether one item leaves room for its scoring bonus in a 32-bit score.
fn item_fits(item: &JsonValue) -> (r: bool)
    ensures
        r == item_score_fits(*item),
{
    let votes = item.i64_at("num_positive_votes");
    let votes32 = #[verifier::truncate] (votes as i32);
    let username = item.str_at("username");
    let bonus = Pronunciation::calculate_score_increment(username.as_str());
    (votes32 as i64) + (bonus as i64) <= (i32::MAX as i64)
}

/// Parse the whole document into records, one per item of its `items` array
/// and in input order; a document without such an array yields none.
pub fn parse_pronunciations(json: &JsonValue) -> (r: Vec<Pronunciation>)
    requires
        forall|i: int| 0 <= i < json_items(*json).len() ==> item_score_fits(
            #[trigger] json_items(*json)[i],
        ),
    ensures
        r@.len() == json_items(*json).len(),
        forall|i: int| 0 <= i < r@.len() ==> record_of_item(#[trigger] r@[i], json_items(*json)[i]),
{
    match json.get("items") {
        Some(v) => match v {
            JsonValue::Arr(items) => {
                let mut out: Vec<Pronunciation> = Vec::new();
                let mut i: usize = 0;
                while i < items.len()
                    invariant
                        i <= items@.len(),
                        out@.len() == i,
                        items@ == json_items(*json),
                        forall|j: int| 0 <= j < items@.len() ==> item_score_fits(
                            #[trigger] items@[j],
                        ),
                        forall|j: int| 0 <= j < i ==> record_of_item(#[trigger] out@[j], items@[j]),
                    decreases items@.len() - i,
                {
                    let p = parse_pronunciation_item(&items[i]);
                    out.push(p);
                    i += 1;
                }
                out
            },
            _ => Vec::new(),
        },
        None => Vec::new(),
    }
}

} // verus!
