//! The persisted user configuration record. Loading and saving it are plain
//! file I/O at the program's edge; the library only holds the shape and its
//! empty default.

use vstd::prelude::*;

verus! {

/// The flat configuration record: every field is optional, and a missing
/// configuration file stands for the all-empty record.
#[derive(Debug)]
pub struct Config {
    pub api_key: Option<String>,
    pub anki2_path: Option<String>,
    pub default_collection: Option<String>,
}

impl Default for Config {
    /// The all-empty record.
    fn default() -> (r: Self)
        ensures
            r.api_key is None,
            r.anki2_path is None,
            r.default_collection is None,
    {
        Config { api_key: None, anki2_path: None, default_collection: None }
    }
}

} // verus!
