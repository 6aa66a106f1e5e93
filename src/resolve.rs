use vstd::prelude::*;
use vstd::string::StringExecFns;

use crate::model::{EpisodeFile, FetchError, Torrent};

verus! {

/// The strings of a sequence, each seen as its characters.
pub open spec fn text_of(v: Seq<String>) -> Seq<Seq<char>> {
    v.map_values(|s: String| s@)
}

/// The playable paths that one torrent contributes: for each complete file,
/// in the order of the file list, the torrent's save path followed directly
/// by the file's name.
pub open spec fn torrent_paths(t: Torrent, files: Seq<EpisodeFile>) -> Seq<Seq<char>> {
    files.filter(|f: EpisodeFile| f.complete()).map_values(
        |f: EpisodeFile| t.save_path@ + f.name@,
    )
}

/// A torrent together with the outcome of asking the daemon for its files.
#[derive(Debug)]
pub struct TorrentFiles {
    pub torrent: Torrent,
    pub files: Result<Vec<EpisodeFile>, FetchError>,
}

/// The paths that one torrent contributes; none where its files could not
/// be fetched.
pub open spec fn entry_paths(e: TorrentFiles) -> Seq<Seq<char>> {
    match e.files {
        Ok(fs) => torrent_paths(e.torrent, fs@),
        Err(_) => Seq::empty(),
    }
}

/// The candidate paths of a whole listing: the contributions of its
/// torrents, one after the other, in listing order.
pub open spec fn resolved_paths(entries: Seq<TorrentFiles>) -> Seq<Seq<char>>
    decreases entries.len(),
{
    if entries.len() == 0 {
        Seq::empty()
    } else {
        resolved_paths(entries.drop_last()) + entry_paths(entries.last())
    }
}

/// What resolution hands to the selection step.
#[derive(Debug, Clone)]
pub struct Resolution {
    /// The playable paths, in listing order then file order.
    pub candidates: Vec<String>,
    /// Set when the torrent list itself could not be fetched.
    pub fatal: Option<FetchError>,
}

/// `r` is what resolving `listing` gives: on a listing, the paths of every
/// torrent in order and no fatal error; on a failed listing, no candidate and
/// that failure as fatal.
pub open spec fn resolution_of(listing: Result<Vec<TorrentFiles>, FetchError>, r: Resolution) -> bool {
    match listing {
        Ok(entries) => text_of(r.candidates@) == resolved_paths(entries@) && r.fatal is None,
        Err(e) => r.candidates@.len() == 0 && r.fatal == Some(e),
    }
}

/// The full path of a file: the save path and the name, joined with no
/// separator inserted.
pub fn full_path(save_path: &String, name: &String) -> (r: String)
    ensures
        r@ == save_path@ + name@,
{
    save_path.clone().concat(name.as_str())
}

pub proof fn lemma_text_of_push(v: Seq<String>, s: String)
    ensures
        text_of(v.push(s)) == text_of(v).push(s@),
{
    assert(text_of(v.push(s)) =~= text_of(v).push(s@));
}

pub proof fn lemma_text_of_add(a: Seq<String>, b: Seq<String>)
    ensures
        text_of(a + b) == text_of(a) + text_of(b),
{
    assert(text_of(a + b) =~= text_of(a) + text_of(b));
}

/// Appending a file to a torrent's list appends its path exactly when the
/// file is complete.
pub proof fn lemma_torrent_paths_push(t: Torrent, files: Seq<EpisodeFile>, f: EpisodeFile)
    ensures
        torrent_paths(t, files.push(f)) == if f.complete() {
            torrent_paths(t, files).push(t.save_path@ + f.name@)
        } else {
            torrent_paths(t, files)
        },
{
    reveal(Seq::filter);
    let p = |x: EpisodeFile| x.complete();
    let m = |x: EpisodeFile| t.save_path@ + x.name@;
    assert(files.push(f).drop_last() =~= files);
    assert(files.push(f).last() == f);
    if f.complete() {
        assert(files.push(f).filter(p) == files.filter(p).push(f));
        assert(files.filter(p).push(f).map_values(m) =~= files.filter(p).map_values(m).push(
            m(f),
        ));
    } else {
        assert(files.push(f).filter(p) == files.filter(p));
    }
}

/// The candidates of one torrent whose files were fetched.
pub fn torrent_candidates(torrent: &Torrent, files: &Vec<EpisodeFile>) -> (r: Vec<String>)
    ensures
        text_of(r@) == torrent_paths(*torrent, files@),
{
    let mut out: Vec<String> = Vec::new();
    let mut i: usize = 0;
    while i < files.len()
        invariant
            i <= files.len(),
            text_of(out@) == torrent_paths(*torrent, files@.take(i as int)),
        decreases files.len() - i,
    {
        let f = &files[i];
        proof {
            assert(files@.take(i + 1) =~= files@.take(i as int).push(*f));
            lemma_torrent_paths_push(*torrent, files@.take(i as int), *f);
        }
        if f.is_complete() {
            let p = full_path(&torrent.save_path, &f.name);
            proof {
                lemma_text_of_push(out@, p);
            }
            out.push(p);
        }
        i += 1;
    }
    assert(files@.take(files.len() as int) =~= files@);
    out
}

/// Resolves a listing into the candidates offered for selection.
///
/// Where the listing itself failed, nothing is resolved and the failure is
/// handed back as fatal. Otherwise each torrent contributes the paths of its
/// complete files, and a torrent whose files could not be fetched contributes
/// none without stopping the others.
pub fn resolve(listing: &Result<Vec<TorrentFiles>, FetchError>) -> (r: Resolution)
    ensures
        resolution_of(*listing, r),
{
    match listing {
        Err(e) => Resolution { candidates: Vec::new(), fatal: Some(*e) },
        Ok(entries) => {
            let mut out: Vec<String> = Vec::new();
            let mut i: usize = 0;
            while i < entries.len()
                invariant
                    i <= entries.len(),
                    text_of(out@) == resolved_paths(entries@.take(i as int)),
                decreases entries.len() - i,
            {
                let e = &entries[i];
                proof {
                    let s = entries@.take(i + 1);
                    assert(s.drop_last() =~= entries@.take(i as int));
                    assert(s.last() == *e);
                }
                match &e.files {
                    Ok(files) => {
                        let mut found = torrent_candidates(&e.torrent, files);
                        proof {
                            lemma_text_of_add(out@, found@);
                        }
                        out.append(&mut found);
                    },
                    Err(_) => {},
                }
                i += 1;
            }
            assert(entries@.take(entries.len() as int) =~= entries@);
            Resolution { candidates: out, fatal: None }
        },
    }
}

} // verus!
