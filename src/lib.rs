//! Resolution of playable episode files from a torrent daemon's listings.
//!
//! The library holds the data model of the daemon's answers, the requests
//! that the source client issues, and the resolver that turns fetched
//! torrents and their files into an ordered list of playable paths.

mod laws;
mod model;
mod resolve;
mod source;

pub use laws::{
    lemma_contribution_counts_complete, lemma_failed_torrent_skipped, lemma_file_order,
    lemma_listing_order, lemma_resolution_repeatable,
};
pub use model::{EpisodeFile, FetchError, Torrent, COMPLETE_PROGRESS_BITS};
pub use resolve::{
    entry_paths, full_path, lemma_torrent_paths_push, resolution_of, resolve, resolved_paths,
    text_of, torrent_candidates, torrent_paths, Resolution, TorrentFiles,
};
pub use source::{
    SourceConfig, DEFAULT_BASE_URL, DEFAULT_CATEGORY, TORRENTS_FILES, TORRENTS_INFO,
};
