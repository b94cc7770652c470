//! The archive extractor's verified half: decoding a gzip-compressed tar
//! stream held in memory into plain entries, and refusing any entry whose
//! path would resolve outside the target directory.
//!
//! Writing the entries to disk is input/output and stays with the caller;
//! this module decides *what* may be written, and rejects a malicious
//! archive before anything is.
use vstd::prelude::*;

use crate::errors::InstallError;
use crate::json::to_chars;

verus! {

/// One entry of an unpacked archive, as plain values: its path inside the
/// target directory, whether it is a directory, its permission bits, and
/// its contents.
#[derive(Debug, Clone, PartialEq, Eq)]
pub struct ArchiveEntry {
    pub path: String,
    pub is_dir: bool,
    pub mode: u32,
    pub data: Vec<u8>,
}

impl View for ArchiveEntry {
    type V = (Seq<char>, bool, u32, Seq<u8>);

    open spec fn view(&self) -> (Seq<char>, bool, u32, Seq<u8>) {
        (self.path@, self.is_dir, self.mode, self.data@)
    }
}

/// The views of a sequence of entries.
pub open spec fn entry_views(l: Seq<ArchiveEntry>) -> Seq<(Seq<char>, bool, u32, Seq<u8>)> {
    l.map_values(|e: ArchiveEntry| e@)
}

/// The entries encoded by a gzip-compressed tar stream, or nothing when
/// the bytes are not one. Decoding is a function of the bytes alone; this
/// library never states what the entries of given bytes are.
pub uninterp spec fn archive_entries_of(b: Seq<u8>) -> Option<Seq<(Seq<char>, bool, u32, Seq<u8>)>>;

/// Relies on `flate2::read::GzDecoder` and `tar::Archive`: decompressing
/// and walking a tar stream held in memory returns each entry's path,
/// type, mode and contents, a function of the input bytes alone.
#[verifier::external_body]
pub(crate) fn decode_archive(compressed: &[u8]) -> (r: Option<Vec<ArchiveEntry>>)
    ensures
        match r {
            Option::Some(es) => archive_entries_of(compressed@) == Option::Some(entry_views(es@)),
            Option::None => archive_entries_of(compressed@) is None,
        },
{
    let mut ar = tar::Archive::new(flate2::read::GzDecoder::new(compressed));
    let mut out: Vec<ArchiveEntry> = Vec::new();
    for entry in ar.entries().ok()? {
        let mut entry = entry.ok()?;
        let path = entry.path().ok()?.to_str()?.to_string();
        let mode = entry.header().mode().ok()?;
        let is_dir = entry.header().entry_type().is_dir();
        let mut data: Vec<u8> = Vec::new();
        std::io::Read::read_to_end(&mut entry, &mut data).ok()?;
        out.push(ArchiveEntry { path, is_dir, mode, data });
    }
    Some(out)
}

/// A `..` path component starting at position `i`.
pub open spec fn dotdot_at(s: Seq<char>, i: int) -> bool {
    &&& 0 <= i
    &&& i + 2 <= s.len()
    &&& s[i] == '.'
    &&& s[i + 1] == '.'
    &&& (i == 0 || s[i - 1] == '/')
    &&& (i + 2 == s.len() || s[i + 2] == '/')
}

/// An entry path that stays inside the target directory: non-empty, not
/// absolute, and without a `..` component.
pub open spec fn safe_entry_path(s: Seq<char>) -> bool {
    &&& s.len() > 0
    &&& s[0] != '/'
    &&& forall|i: int| !dotdot_at(s, i)
}

/// Whether an entry path stays inside the target directory.
pub fn entry_path_is_safe(path: &str) -> (b: bool)
    ensures
        b == safe_entry_path(path@),
{
    let v = to_chars(path);
    let n = v.len();
    if n == 0 {
        return false;
    }
    if v[0] == '/' {
        return false;
    }
    let mut i: usize = 0;
    while i < n
        invariant
            i <= n,
            n == path@.len(),
            v@ == path@,
            forall|j: int| j < i ==> !dotdot_at(path@, j),
        decreases n - i,
    {
        if n - i >= 2 && v[i] == '.' && v[i + 1] == '.' && (i == 0 || v[i - 1] == '/') && (i + 2
            == n || v[i + 2] == '/') {
            assert(dotdot_at(path@, i as int));
            return false;
        }
        proof {
            assert(!dotdot_at(path@, i as int));
        }
        i += 1;
    }
    assert forall|j: int| !dotdot_at(path@, j) by {
        if dotdot_at(path@, j) {
            assert(0 <= j < n);
        }
    }
    true
}

/// Whether every entry's path stays inside the target directory.
pub open spec fn all_entries_safe(l: Seq<(Seq<char>, bool, u32, Seq<u8>)>) -> bool {
    forall|i: int| 0 <= i < l.len() ==> safe_entry_path(#[trigger] l[i].0)
}

/// Refuses an archive holding any entry whose path would resolve outside
/// the target directory, before anything is written.
pub fn check_entries(entries: &Vec<ArchiveEntry>) -> (r: Result<(), InstallError>)
    ensures
        match r {
            Result::Ok(()) => all_entries_safe(entry_views(entries@)),
            Result::Err(e) => !all_entries_safe(entry_views(entries@)) && e
                == InstallError::MaliciousArchive,
        },
{
    let n = entries.len();
    let mut i: usize = 0;
    while i < n
        invariant
            i <= n,
            n == entries@.len(),
            forall|j: int| 0 <= j < i ==> safe_entry_path(#[trigger] entry_views(entries@)[j].0),
        decreases n - i,
    {
        if !entry_path_is_safe(entries[i].path.as_str()) {
            assert(entry_views(entries@)[i as int].0 == entries@[i as int].path@);
            return Result::Err(InstallError::MaliciousArchive);
        }
        assert(entry_views(entries@)[i as int].0 == entries@[i as int].path@);
        i += 1;
    }
    Result::Ok(())
}

} // verus!
