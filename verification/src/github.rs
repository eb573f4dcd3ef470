//! What a release of the program looks like where releases are published.

use vstd::prelude::*;

verus! {

/// One published release: its tag and the files that come with it.
#[derive(Debug)]
pub struct GitHubRelease {
    pub tag_name: String,
    pub assets: Vec<GitHubAsset>,
}

/// One file of a release.
#[derive(Debug)]
pub struct GitHubAsset {
    pub name: String,
    pub browser_download_url: String,
}

impl GitHubAsset {
    /// The file is a Windows executable, going by its name.
    pub open spec fn is_installer(&self) -> bool {
        ".exe"@.is_suffix_of(self.name@)
    }
}

/// Where the first Windows executable among the files can be had, if there
/// is one.
pub open spec fn first_installer(assets: Seq<GitHubAsset>) -> Option<Seq<char>>
    decreases assets.len(),
{
    if assets.len() == 0 {
        None
    } else if assets[0].is_installer() {
        Some(assets[0].browser_download_url@)
    } else {
        first_installer(assets.skip(1))
    }
}

} // verus!
