use vstd::prelude::*;

verus! {

/// Bit pattern of the single-precision value `1.0`, the progress that the
/// daemon reports for a fully downloaded file.
pub const COMPLETE_PROGRESS_BITS: u32 = 0x3F80_0000;

/// A torrent as listed by the daemon for a category.
#[derive(Debug, Clone)]
pub struct Torrent {
    /// Display name; not unique.
    pub name: String,
    /// Directory prefix under which the torrent's files are stored.
    pub save_path: String,
    /// Stable identifier, used to ask for the torrent's files.
    pub hash: String,
}

impl Torrent {
    pub fn new(name: String, save_path: String, hash: String) -> (r: Torrent)
        ensures
            r.name@ == name@,
            r.save_path@ == save_path@,
            r.hash@ == hash@,
    {
        Torrent { name, save_path, hash }
    }
}

impl Default for Torrent {
    fn default() -> (r: Torrent)
        ensures
            r.name@ == Seq::<char>::empty(),
            r.save_path@ == Seq::<char>::empty(),
            r.hash@ == Seq::<char>::empty(),
    {
        Torrent { name: String::new(), save_path: String::new(), hash: String::new() }
    }
}

impl PartialEq for Torrent {
    fn eq(&self, other: &Torrent) -> (r: bool)
        ensures
            r == (self.name@ == other.name@ && self.save_path@ == other.save_path@
                && self.hash@ == other.hash@),
    {
        self.name == other.name && self.save_path == other.save_path && self.hash == other.hash
    }
}

impl vstd::std_specs::cmp::PartialEqSpecImpl for Torrent {
    open spec fn obeys_eq_spec() -> bool {
        true
    }

    open spec fn eq_spec(&self, other: &Torrent) -> bool {
        self.name@ == other.name@ && self.save_path@ == other.save_path@ && self.hash@
            == other.hash@
    }
}

/// One file of a torrent, as listed by the daemon.
///
/// The daemon reports progress as a single-precision fraction in `[0, 1]`;
/// it is held here by its IEEE-754 bit pattern (`f32::to_bits`), so that the
/// completion test stays the exact equality with `1.0`.
#[derive(Debug, Clone)]
pub struct EpisodeFile {
    /// File name, possibly with a relative sub-path.
    pub name: String,
    /// Bit pattern of the reported progress.
    pub progress_bits: u32,
}

impl EpisodeFile {
    pub fn new(name: String, progress_bits: u32) -> (r: EpisodeFile)
        ensures
            r.name@ == name@,
            r.progress_bits == progress_bits,
    {
        EpisodeFile { name, progress_bits }
    }

    /// A file is complete when its progress equals `1.0` exactly. Of all
    /// single-precision values only one bit pattern compares equal to `1.0`.
    pub open spec fn complete(self) -> bool {
        self.progress_bits == COMPLETE_PROGRESS_BITS
    }

    pub fn is_complete(&self) -> (r: bool)
        ensures
            r == self.complete(),
    {
        self.progress_bits == COMPLETE_PROGRESS_BITS
    }
}

/// Why a query to the daemon produced no value.
#[derive(Debug, Clone, Copy, PartialEq, Eq, Structural)]
pub enum FetchError {
    /// The daemon could not be reached, or the exchange failed.
    Transport,
    /// The answer did not have the expected shape.
    Decode,
}

} // verus!
