//! Decisions and output framing of a command-line tool that prints
//! metadata of videos and playlists of a video-hosting site as JSON.
//!
//! The network fetches stay with the caller: it hands the library the
//! arguments, the encodings of an item or the members of a collection, and
//! prints the line or the diagnostic that comes back.
pub mod cli;
pub mod json;
pub mod output;
pub mod records;
pub mod sources;
pub mod text;
pub mod weburl;

pub use cli::{choose_action, diagnostic, usage_text, Action};
pub use json::{render_item, render_items, render_sources};
pub use output::{collection_output, single_item_output, sources_output};
pub use records::{
    build_youtube_url, collection_records, single_item_records, ItemRecord, Member,
    COLLECTION_LIMIT,
};
pub use sources::{first_carrying, select_sources, source_url, Encoding, SourceRecord, Track};
pub use text::contains_str;
pub use weburl::classify_url;
