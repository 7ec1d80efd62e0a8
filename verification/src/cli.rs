//! The version banner.
use vstd::prelude::*;

use crate::text::{concat3, concat4};

pub use crate::expr::Config;

verus! {

/// The package version.
pub const VERSION: &'static str = "0.1.3";

/// The version with the build's source revision: `0.1.3 (rev)`.
pub open spec fn full_version(revision: Seq<char>) -> Seq<char> {
    VERSION@ + " ("@ + revision + ")"@
}

/// The text `--version` prints, for a build of source revision `revision`.
pub open spec fn version_text(revision: Seq<char>) -> Seq<char> {
    "find (fastfind) "@ + full_version(revision) + "\nhttps://crates.io/crates/fastfind"@
}

/// The version with the build's source revision.
pub fn version_with_revision(revision: &str) -> (s: String)
    ensures
        s@ == full_version(revision@),
{
    concat4(VERSION, " (", revision, ")")
}

/// The text `--version` prints, for a build of source revision `revision`.
pub fn version_string(revision: &str) -> (s: String)
    ensures
        s@ == version_text(revision@),
{
    let v = version_with_revision(revision);
    concat3("find (fastfind) ", v.as_str(), "\nhttps://crates.io/crates/fastfind")
}

} // verus!
