//! The licenses a dataset can be published under, identified by name.

use vstd::prelude::*;

use crate::strutil::str_eq;

verus! {

/// A dataset license, identified on the wire by its name string.
#[derive(Debug, Clone, Copy, PartialEq, Eq, Structural)]
pub enum License {
    /// CC0-1.0
    Cc010,
    /// CC-BY-SA-4.0
    CcBySa40,
    /// GPL-2.0
    Gpl20,
    /// ODbL-1.0
    OdbL10,
    /// CC-BY-NC-SA-4.0
    CcByNcSa40,
    /// unknown
    Unknown,
    /// DbCL-1.0
    DbCl10,
    /// CC-BY-SA-3.0
    CcBySa30,
    /// copyright-authors
    CopyrightAuthors,
    /// other
    Other,
    /// reddit-api
    RedditApi,
    /// world-bank
    WorldBank,
}

/// The name string of each license.
pub open spec fn license_name(l: License) -> Seq<char> {
    match l {
        License::Cc010 => "CC0-1.0"@,
        License::CcBySa40 => "CC-BY-SA-4.0"@,
        License::Gpl20 => "GPL-2.0"@,
        License::OdbL10 => "ODbL-1.0"@,
        License::CcByNcSa40 => "CC-BY-NC-SA-4.0"@,
        License::Unknown => "unknown"@,
        License::DbCl10 => "DbCL-1.0"@,
        License::CcBySa30 => "CC-BY-SA-3.0"@,
        License::CopyrightAuthors => "copyright-authors"@,
        License::Other => "other"@,
        License::RedditApi => "reddit-api"@,
        License::WorldBank => "world-bank"@,
    }
}

/// The license a name string denotes; every unrecognized name denotes
/// `Other`.
pub open spec fn license_from_name(s: Seq<char>) -> License {
    if s == "CC0-1.0"@ {
        License::Cc010
    } else if s == "CC-BY-SA-4.0"@ {
        License::CcBySa40
    } else if s == "GPL-2.0"@ {
        License::Gpl20
    } else if s == "ODbL-1.0"@ {
        License::OdbL10
    } else if s == "CC-BY-NC-SA-4.0"@ {
        License::CcByNcSa40
    } else if s == "unknown"@ {
        License::Unknown
    } else if s == "DbCL-1.0"@ {
        License::DbCl10
    } else if s == "CC-BY-SA-3.0"@ {
        License::CcBySa30
    } else if s == "copyright-authors"@ {
        License::CopyrightAuthors
    } else if s == "reddit-api"@ {
        License::RedditApi
    } else if s == "world-bank"@ {
        License::WorldBank
    } else {
        License::Other
    }
}

impl License {
    /// The license's name as it appears on the wire.
    pub fn name(&self) -> (r: &'static str)
        ensures
            r@ == license_name(*self),
    {
        match self {
            License::Cc010 => "CC0-1.0",
            License::CcBySa40 => "CC-BY-SA-4.0",
            License::Gpl20 => "GPL-2.0",
            License::OdbL10 => "ODbL-1.0",
            License::CcByNcSa40 => "CC-BY-NC-SA-4.0",
            License::Unknown => "unknown",
            License::DbCl10 => "DbCL-1.0",
            License::CcBySa30 => "CC-BY-SA-3.0",
            License::CopyrightAuthors => "copyright-authors",
            License::Other => "other",
            License::RedditApi => "reddit-api",
            License::WorldBank => "world-bank",
        }
    }

    /// The license a name denotes; unrecognized names denote `Other`.
    pub fn from_name(s: &str) -> (r: License)
        ensures
            r == license_from_name(s@),
    {
        if str_eq(s, "CC0-1.0") {
            License::Cc010
        } else if str_eq(s, "CC-BY-SA-4.0") {
            License::CcBySa40
        } else if str_eq(s, "GPL-2.0") {
            License::Gpl20
        } else if str_eq(s, "ODbL-1.0") {
            License::OdbL10
        } else if str_eq(s, "CC-BY-NC-SA-4.0") {
            License::CcByNcSa40
        } else if str_eq(s, "unknown") {
            License::Unknown
        } else if str_eq(s, "DbCL-1.0") {
            License::DbCl10
        } else if str_eq(s, "CC-BY-SA-3.0") {
            License::CcBySa30
        } else if str_eq(s, "copyright-authors") {
            License::CopyrightAuthors
        } else if str_eq(s, "reddit-api") {
            License::RedditApi
        } else if str_eq(s, "world-bank") {
            License::WorldBank
        } else {
            License::Other
        }
    }
}

/// Reading a license's own name back always yields the same license: the
/// twelve name strings are pairwise distinct.
pub proof fn lemma_license_name_round_trip(l: License)
    ensures
        license_from_name(license_name(l)) == l,
{
    reveal_strlit("CC0-1.0");
    reveal_strlit("CC-BY-SA-4.0");
    reveal_strlit("GPL-2.0");
    reveal_strlit("ODbL-1.0");
    reveal_strlit("CC-BY-NC-SA-4.0");
    reveal_strlit("unknown");
    reveal_strlit("DbCL-1.0");
    reveal_strlit("CC-BY-SA-3.0");
    reveal_strlit("copyright-authors");
    reveal_strlit("other");
    reveal_strlit("reddit-api");
    reveal_strlit("world-bank");
    crate::strutil::lemma_seq_neq_at("CC0-1.0"@, "GPL-2.0"@, 0);
    crate::strutil::lemma_seq_neq_at("CC0-1.0"@, "unknown"@, 0);
    crate::strutil::lemma_seq_neq_at("GPL-2.0"@, "unknown"@, 0);
    crate::strutil::lemma_seq_neq_at("ODbL-1.0"@, "DbCL-1.0"@, 0);
    crate::strutil::lemma_seq_neq_at("CC-BY-SA-4.0"@, "CC-BY-SA-3.0"@, 9);
    crate::strutil::lemma_seq_neq_at("reddit-api"@, "world-bank"@, 0);
}

} // verus!
