use vstd::prelude::*;

use crate::model::{EpisodeFile, FetchError, Torrent};
use crate::resolve::{
    entry_paths, lemma_torrent_paths_push, resolution_of, resolved_paths, text_of, torrent_paths,
    Resolution, TorrentFiles,
};

verus! {

/// A torrent contributes exactly as many candidates as it has files whose
/// progress is exactly `1.0`; a torrent none of whose files is complete
/// contributes none.
pub proof fn lemma_contribution_counts_complete(t: Torrent, files: Seq<EpisodeFile>)
    ensures
        torrent_paths(t, files).len() == files.filter(|f: EpisodeFile| f.complete()).len(),
        (forall|i: int| 0 <= i < files.len() ==> !(#[trigger] files[i]).complete())
            ==> torrent_paths(t, files).len() == 0,
    decreases files.len(),
{
    if files.len() > 0 {
        let init = files.drop_last();
        assert(init.push(files.last()) =~= files);
        lemma_contribution_counts_complete(t, init);
        lemma_torrent_paths_push(t, init, files.last());
        if forall|i: int| 0 <= i < files.len() ==> !(#[trigger] files[i]).complete() {
            assert forall|i: int| 0 <= i < init.len() implies !(#[trigger] init[i]).complete() by {
                assert(init[i] == files[i]);
            }
            assert(!files[files.len() - 1].complete());
        }
    }
}

/// Within a torrent, candidates keep the order of the file list: the
/// candidates of two runs of files, one after the other, are those of the
/// first run followed by those of the second.
pub proof fn lemma_file_order(t: Torrent, a: Seq<EpisodeFile>, b: Seq<EpisodeFile>)
    ensures
        torrent_paths(t, a + b) == torrent_paths(t, a) + torrent_paths(t, b),
    decreases b.len(),
{
    if b.len() == 0 {
        assert(a + b =~= a);
        assert(torrent_paths(t, b) =~= Seq::<Seq<char>>::empty()) by {
            reveal(Seq::filter);
        }
        assert(torrent_paths(t, a) + torrent_paths(t, b) =~= torrent_paths(t, a));
    } else {
        let init = b.drop_last();
        let f = b.last();
        assert(a + b =~= (a + init).push(f));
        assert(b =~= init.push(f));
        lemma_file_order(t, a, init);
        lemma_torrent_paths_push(t, a + init, f);
        lemma_torrent_paths_push(t, init, f);
        if f.complete() {
            assert(torrent_paths(t, a) + torrent_paths(t, init).push(t.save_path@ + f.name@) =~= (
            torrent_paths(t, a) + torrent_paths(t, init)).push(t.save_path@ + f.name@));
        }
    }
}

/// Candidates keep the order of the torrent list: resolving two runs of
/// torrents, one after the other, gives the candidates of the first run
/// followed by those of the second.
pub proof fn lemma_listing_order(a: Seq<TorrentFiles>, b: Seq<TorrentFiles>)
    ensures
        resolved_paths(a + b) == resolved_paths(a) + resolved_paths(b),
    decreases b.len(),
{
    if b.len() == 0 {
        assert(a + b =~= a);
        assert(resolved_paths(a) + resolved_paths(b) =~= resolved_paths(a));
    } else {
        let init = b.drop_last();
        assert((a + b).drop_last() =~= a + init);
        assert((a + b).last() == b.last());
        lemma_listing_order(a, init);
        assert(resolved_paths(a) + resolved_paths(init) + entry_paths(b.last()) =~= resolved_paths(
            a,
        ) + (resolved_paths(init) + entry_paths(b.last())));
    }
}

/// A torrent whose files could not be fetched is skipped alone: the
/// candidates are those of the torrents before it followed by those of the
/// torrents after it.
pub proof fn lemma_failed_torrent_skipped(entries: Seq<TorrentFiles>, k: int)
    requires
        0 <= k < entries.len(),
        entries[k].files is Err,
    ensures
        resolved_paths(entries) == resolved_paths(entries.take(k)) + resolved_paths(
            entries.skip(k + 1),
        ),
{
    let one = seq![entries[k]];
    assert(entries =~= entries.take(k) + one + entries.skip(k + 1));
    lemma_listing_order(entries.take(k) + one, entries.skip(k + 1));
    lemma_listing_order(entries.take(k), one);
    assert(one.drop_last() =~= Seq::<TorrentFiles>::empty());
    assert(one.last() == entries[k]);
    assert(entry_paths(entries[k]) == Seq::<Seq<char>>::empty());
    assert(resolved_paths(one.drop_last()) == Seq::<Seq<char>>::empty());
    assert(resolved_paths(one) =~= Seq::<Seq<char>>::empty());
    assert(resolved_paths(entries.take(k)) + resolved_paths(one) =~= resolved_paths(
        entries.take(k),
    ));
}

/// Resolving the same listing twice gives the same candidates, in the same
/// order, and the same fatal error.
pub proof fn lemma_resolution_repeatable(
    listing: Result<Vec<TorrentFiles>, FetchError>,
    r1: Resolution,
    r2: Resolution,
)
    requires
        resolution_of(listing, r1),
        resolution_of(listing, r2),
    ensures
        text_of(r1.candidates@) == text_of(r2.candidates@),
        r1.fatal == r2.fatal,
{
    if listing is Err {
        assert(text_of(r1.candidates@) =~= text_of(r2.candidates@));
    }
}

} // verus!
