//! The archiving policy for directory resources: whether a directory is
//! packaged as a tar or zip archive before upload, or not packaged at all.

use vstd::prelude::*;

verus! {

/// How a directory resource is packaged before upload. `Skip` leaves the
/// directory unarchived, and the uploader deliberately omits it: a directory
/// is never itself a valid upload target.
#[derive(Debug, Clone, Copy, PartialEq, Eq, Structural)]
pub enum ArchiveMode {
    Tar,
    Zip,
    Skip,
}

/// The file the archive of a directory is written to, for a given
/// destination base path: the base with the mode's extension, or nothing
/// under `Skip`.
pub open spec fn spec_archive_destination(mode: ArchiveMode, base: Seq<char>) -> Option<
    Seq<char>,
> {
    match mode {
        ArchiveMode::Tar => Some(base + ".tar.gz"@),
        ArchiveMode::Zip => Some(base + ".zip"@),
        ArchiveMode::Skip => None,
    }
}

impl ArchiveMode {
    /// The path the archive for this mode is written to, given the
    /// destination base path; nothing under `Skip`.
    pub fn archive_destination(&self, base: &str) -> (r: Option<String>)
        ensures
            match r {
                Some(p) => spec_archive_destination(*self, base@) == Some(p@),
                None => spec_archive_destination(*self, base@) is None,
            },
    {
        match self {
            ArchiveMode::Tar => {
                let mut s = base.to_owned();
                s.append(".tar.gz");
                Some(s)
            },
            ArchiveMode::Zip => {
                let mut s = base.to_owned();
                s.append(".zip");
                Some(s)
            },
            ArchiveMode::Skip => None,
        }
    }
}

impl Default for ArchiveMode {
    /// Directories are left unarchived unless a mode is chosen.
    fn default() -> (r: Self)
        ensures
            r == ArchiveMode::Skip,
    {
        ArchiveMode::Skip
    }
}

} // verus!
