//! Building the remote pronunciation-query URL.

use vstd::prelude::*;
use vstd::string::StringExecFns;

verus! {

/// The query URL for a given API key and (already normalized) word: the key
/// and the word are inserted verbatim, with the language fixed to Russian.
pub open spec fn forvo_url(api_key: Seq<char>, word: Seq<char>) -> Seq<char> {
    "https://apifree.forvo.com/key/"@ + api_key
        + "/format/json/action/word-pronunciations/word/"@ + word + "/language/ru"@
}

/// Create the pronunciation-query URL for a given API key and word.
pub fn create_forvo_url(api_key: &str, word: &str) -> (r: String)
    ensures
        r@ == forvo_url(api_key@, word@),
{
    let mut url = String::from_str("https://apifree.forvo.com/key/");
    url.append(api_key);
    url.append("/format/json/action/word-pronunciations/word/");
    url.append(word);
    url.append("/language/ru");
    url
}

} // verus!
