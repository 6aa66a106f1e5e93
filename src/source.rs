use vstd::prelude::*;
use vstd::string::StringExecFns;

verus! {

/// Base URL of a daemon's API on the local machine.
pub const DEFAULT_BASE_URL: &'static str = "http://localhost:8080/api/v2";

/// Category resolved when none is chosen.
pub const DEFAULT_CATEGORY: &'static str = "Anime";

/// Endpoint, under the base URL, that lists torrents.
pub const TORRENTS_INFO: &'static str = "/torrents/info";

/// Endpoint, under the base URL, that lists the files of one torrent.
pub const TORRENTS_FILES: &'static str = "/torrents/files";

/// Where the daemon is reached and which category is listed.
#[derive(Debug, Clone)]
pub struct SourceConfig {
    pub base_url: String,
    pub category: String,
}

impl SourceConfig {
    pub fn new(base_url: String, category: String) -> (r: SourceConfig)
        ensures
            r.base_url@ == base_url@,
            r.category@ == category@,
    {
        SourceConfig { base_url, category }
    }

    /// URL of the request that lists the torrents of the category.
    pub fn info_url(&self) -> (r: String)
        ensures
            r@ == self.base_url@ + TORRENTS_INFO@,
    {
        self.base_url.clone().concat(TORRENTS_INFO)
    }

    /// URL of the request that lists the files of one torrent.
    pub fn files_url(&self) -> (r: String)
        ensures
            r@ == self.base_url@ + TORRENTS_FILES@,
    {
        self.base_url.clone().concat(TORRENTS_FILES)
    }

    /// Query of the torrent listing: the configured category, sorted by name.
    pub fn info_query(&self) -> (r: Vec<(String, String)>)
        ensures
            r@.len() == 2,
            r@[0].0@ == "category"@,
            r@[0].1@ == self.category@,
            r@[1].0@ == "sort"@,
            r@[1].1@ == "name"@,
    {
        let mut q: Vec<(String, String)> = Vec::new();
        q.push(("category".to_owned(), self.category.clone()));
        q.push(("sort".to_owned(), "name".to_owned()));
        q
    }

    /// Query of the file listing of the torrent with the given hash.
    pub fn files_query(hash: &String) -> (r: Vec<(String, String)>)
        ensures
            r@.len() == 1,
            r@[0].0@ == "hash"@,
            r@[0].1@ == hash@,
    {
        let mut q: Vec<(String, String)> = Vec::new();
        q.push(("hash".to_owned(), hash.clone()));
        q
    }
}

impl Default for SourceConfig {
    fn default() -> (r: SourceConfig)
        ensures
            r.base_url@ == DEFAULT_BASE_URL@,
            r.category@ == DEFAULT_CATEGORY@,
    {
        SourceConfig { base_url: DEFAULT_BASE_URL.to_owned(), category: DEFAULT_CATEGORY.to_owned() }
    }
}

} // verus!
