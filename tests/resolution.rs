use torrent_episodes::{
    full_path, resolve, torrent_candidates, EpisodeFile, FetchError, SourceConfig, Torrent,
    TorrentFiles, COMPLETE_PROGRESS_BITS, DEFAULT_BASE_URL, DEFAULT_CATEGORY,
};

fn torrent(name: &str, save_path: &str, hash: &str) -> Torrent {
    Torrent::new(name.to_string(), save_path.to_string(), hash.to_string())
}

fn file(name: &str, progress: f32) -> EpisodeFile {
    EpisodeFile::new(name.to_string(), progress.to_bits())
}

fn entry(t: Torrent, files: Result<Vec<EpisodeFile>, FetchError>) -> TorrentFiles {
    TorrentFiles { torrent: t, files }
}

#[test]
fn complete_bits_are_those_of_one() {
    assert_eq!(COMPLETE_PROGRESS_BITS, 1.0f32.to_bits());
    assert!(file("a", 1.0).is_complete());
    assert!(!file("a", 0.999999).is_complete());
    assert!(!file("a", 0.5).is_complete());
    assert!(!file("a", 0.0).is_complete());
    assert!(!file("a", f32::NAN).is_complete());
}

#[test]
fn path_with_trailing_separator() {
    let p = full_path(&"/downloads/Show/".to_string(), &"ep01.mkv".to_string());
    assert_eq!(p, "/downloads/Show/ep01.mkv");
}

#[test]
fn path_without_trailing_separator() {
    let p = full_path(&"/downloads/Show".to_string(), &"ep01.mkv".to_string());
    assert_eq!(p, "/downloads/Showep01.mkv");
}

#[test]
fn only_complete_files_count() {
    let t = torrent("A", "/d/A/", "h1");
    let files = vec![
        file("e1.mkv", 1.0),
        file("e2.mkv", 0.999999),
        file("e3.mkv", 0.0),
        file("e4.mkv", 1.0),
    ];
    let c = torrent_candidates(&t, &files);
    assert_eq!(c, vec!["/d/A/e1.mkv".to_string(), "/d/A/e4.mkv".to_string()]);
}

#[test]
fn torrent_without_files_contributes_nothing() {
    let t = torrent("A", "/d/A/", "h1");
    assert!(torrent_candidates(&t, &Vec::new()).is_empty());
}

#[test]
fn single_torrent_scenario() {
    let t = torrent("A", "/d/A/", "h1");
    let files = vec![file("e1.mkv", 1.0), file("e2.mkv", 0.5)];
    let r = resolve(&Ok(vec![entry(t, Ok(files))]));
    assert_eq!(r.candidates, vec!["/d/A/e1.mkv".to_string()]);
    assert_eq!(r.fatal, None);
}

#[test]
fn empty_category_scenario() {
    let r = resolve(&Ok(Vec::new()));
    assert!(r.candidates.is_empty());
    assert_eq!(r.fatal, None);
}

#[test]
fn failed_listing_is_fatal_and_empty() {
    let r = resolve(&Err(FetchError::Transport));
    assert!(r.candidates.is_empty());
    assert_eq!(r.fatal, Some(FetchError::Transport));
    let r = resolve(&Err(FetchError::Decode));
    assert!(r.candidates.is_empty());
    assert_eq!(r.fatal, Some(FetchError::Decode));
}

#[test]
fn failed_torrent_is_skipped() {
    let listing = Ok(vec![
        entry(torrent("A", "/d/A/", "h1"), Ok(vec![file("a1", 1.0)])),
        entry(torrent("B", "/d/B/", "h2"), Err(FetchError::Decode)),
        entry(torrent("C", "/d/C/", "h3"), Ok(vec![file("c1", 1.0), file("c2", 1.0)])),
    ]);
    let r = resolve(&listing);
    assert_eq!(
        r.candidates,
        vec!["/d/A/a1".to_string(), "/d/C/c1".to_string(), "/d/C/c2".to_string()]
    );
    assert_eq!(r.fatal, None);
}

#[test]
fn order_follows_listing_then_files() {
    let listing = Ok(vec![
        entry(torrent("Z", "/z/", "h1"), Ok(vec![file("b", 1.0), file("a", 1.0)])),
        entry(torrent("A", "/a/", "h2"), Ok(vec![file("y", 1.0), file("x", 1.0)])),
    ]);
    let r1 = resolve(&listing);
    let r2 = resolve(&listing);
    let expected = vec![
        "/z/b".to_string(),
        "/z/a".to_string(),
        "/a/y".to_string(),
        "/a/x".to_string(),
    ];
    assert_eq!(r1.candidates, expected);
    assert_eq!(r1.candidates, r2.candidates);
}

#[test]
fn duplicate_paths_are_kept() {
    let listing = Ok(vec![
        entry(torrent("A", "/d/", "h1"), Ok(vec![file("e.mkv", 1.0)])),
        entry(torrent("B", "/d/", "h2"), Ok(vec![file("e.mkv", 1.0)])),
    ]);
    let r = resolve(&listing);
    assert_eq!(r.candidates, vec!["/d/e.mkv".to_string(), "/d/e.mkv".to_string()]);
}

#[test]
fn torrent_equality_and_default() {
    let a = torrent("A", "/d/", "h1");
    assert_eq!(a, a.clone());
    assert_ne!(a, torrent("A", "/d/", "h2"));
    let d = Torrent::default();
    assert_eq!(d, torrent("", "", ""));
}

#[test]
fn default_source_urls_and_queries() {
    let c = SourceConfig::default();
    assert_eq!(c.base_url, DEFAULT_BASE_URL);
    assert_eq!(c.category, DEFAULT_CATEGORY);
    assert_eq!(c.info_url(), "http://localhost:8080/api/v2/torrents/info");
    assert_eq!(c.files_url(), "http://localhost:8080/api/v2/torrents/files");
    assert_eq!(
        c.info_query(),
        vec![
            ("category".to_string(), "Anime".to_string()),
            ("sort".to_string(), "name".to_string())
        ]
    );
    assert_eq!(
        SourceConfig::files_query(&"h1".to_string()),
        vec![("hash".to_string(), "h1".to_string())]
    );
}

#[test]
fn custom_source_config() {
    let c = SourceConfig::new("http://host:9/api".to_string(), "Films".to_string());
    assert_eq!(c.info_url(), "http://host:9/api/torrents/info");
    assert_eq!(c.info_query()[0].1, "Films");
}
