//! Retrieval-and-selection pipeline for spoken-word pronunciation recordings:
//! normalizing an input word, building the query URL, parsing the service
//! response into typed records, scoring and ranking those records, and the
//! path and status bookkeeping for the audio transfer.

pub mod anki;
pub mod config;
pub mod download;
pub mod json;
pub mod parse;
pub mod record;
pub mod select;
mod strings;
pub mod text;
pub mod url;

pub use parse::parse_pronunciation_item;
pub use parse::parse_pronunciations;
pub use record::Pronunciation;
pub use select::find_highest_score;
pub use text::strip_acute;
pub use url::create_forvo_url;
