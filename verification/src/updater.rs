//! Deciding whether a published release should replace the running
//! program.

use vstd::prelude::*;
use vstd::string::StringExecFns;
use crate::github::{first_installer, GitHubAsset, GitHubRelease};
use crate::text::{ends_with, trim_start_matches, without_leading};

verus! {

/// Whether `semver::Version::parse` accepts a text: whether it is a version
/// number as Semantic Versioning writes one.
pub uninterp spec fn semver_valid(text: Seq<char>) -> bool;

/// Whether the version that the first text writes is greater than the one
/// that the second writes, in the order that `semver::Version` documents:
/// by major, minor and patch number, then a pre-release before its release,
/// then by the pre-release and build identifiers.
pub uninterp spec fn semver_exceeds(left: Seq<char>, right: Seq<char>) -> bool;

/// `semver::Version::parse`: whether the text parses is what `semver_valid`
/// names.
#[verifier::external_body]
fn is_version(text: &str) -> (valid: bool)
    ensures
        valid == semver_valid(text@),
{
    semver::Version::parse(text).is_ok()
}

/// `semver::Version::parse` on each text, then the `>` of `semver::Version`
/// on the two versions: `None` unless both texts parse, else whether the
/// first version is greater, which is what `semver_exceeds` names.
#[verifier::external_body]
fn version_exceeds(left: &str, right: &str) -> (greater: Option<bool>)
    ensures
        greater == (if semver_valid(left@) && semver_valid(right@) {
            Some(semver_exceeds(left@, right@))
        } else {
            None
        }),
{
    match (semver::Version::parse(left), semver::Version::parse(right)) {
        (Ok(left), Ok(right)) => Some(left > right),
        _ => None,
    }
}

/// Why no decision on an update could be made.
#[derive(Debug, Clone, Copy, PartialEq, Eq, Structural)]
pub enum UpdateError {
    /// The running program's own version is no version number.
    CurrentVersion,
    /// The release's tag is no version number.
    ReleaseVersion,
}

/// Looks for newer releases of the program in one repository.
#[derive(Debug)]
pub struct UpdateManager {
    /// The repository, as owner and name with a slash between.
    pub repo: String,
}

/// The version that a release tag names: the tag without the `v`s it
/// starts with.
pub open spec fn tag_version(tag: Seq<char>) -> Seq<char> {
    without_leading(tag, 'v')
}

/// What is to be downloaded, given whether the release is newer: the first
/// Windows executable of a newer release, nothing otherwise.
pub open spec fn chosen_update(newer: bool, assets: Seq<GitHubAsset>) -> Option<Seq<char>> {
    if newer {
        first_installer(assets)
    } else {
        None
    }
}

/// Where the first Windows executable among the files can be had.
pub fn find_installer(assets: &Vec<GitHubAsset>) -> (url: Option<String>)
    ensures
        url is Some == first_installer(assets@) is Some,
        url matches Some(found) ==> Some(found@) == first_installer(assets@),
{
    let mut position: usize = 0;
    assert(assets@.skip(0) =~= assets@);
    while position < assets.len()
        invariant
            position <= assets@.len(),
            first_installer(assets@) == first_installer(assets@.skip(position as int)),
        decreases assets@.len() - position,
    {
        let ghost rest = assets@.skip(position as int);
        assert(rest[0] == assets@[position as int]);
        assert(rest.skip(1) =~= assets@.skip(position + 1));
        if ends_with(assets[position].name.as_str(), ".exe") {
            return Some(assets[position].browser_download_url.clone());
        }
        position = position + 1;
    }
    None
}

/// What is to be downloaded, given whether the release is newer.
pub fn choose_update(newer: bool, assets: &Vec<GitHubAsset>) -> (url: Option<String>)
    ensures
        url is Some == chosen_update(newer, assets@) is Some,
        url matches Some(found) ==> Some(found@) == chosen_update(newer, assets@),
{
    if newer {
        find_installer(assets)
    } else {
        None
    }
}

impl UpdateManager {
    pub fn new(repo: &str) -> (manager: UpdateManager)
        ensures
            manager.repo@ == repo@,
    {
        UpdateManager { repo: repo.to_owned() }
    }

    /// Where the repository's latest release is described.
    pub fn release_url(&self) -> (url: String)
        ensures
            url@ == "https://api.github.com/repos/"@ + self.repo@ + "/releases/latest"@,
    {
        "https://api.github.com/repos/".to_owned().concat(self.repo.as_str()).concat(
            "/releases/latest",
        )
    }

    /// Decides on an update: where to download the release's Windows
    /// executable if the release is newer than the running program, and
    /// nothing if it is not newer or has no such file.
    pub fn check_for_update(
        &self,
        current_version: &str,
        release: &GitHubRelease,
    ) -> (outcome: Result<Option<String>, UpdateError>)
        ensures
            !semver_valid(current_version@) ==> outcome == Err::<Option<String>, UpdateError>(
                UpdateError::CurrentVersion,
            ),
            semver_valid(current_version@) && !semver_valid(tag_version(release.tag_name@))
                ==> outcome == Err::<Option<String>, UpdateError>(UpdateError::ReleaseVersion),
            semver_valid(current_version@) && semver_valid(tag_version(release.tag_name@)) ==> ({
                let newer = semver_exceeds(tag_version(release.tag_name@), current_version@);
                &&& outcome matches Ok(url)
                &&& url is Some == chosen_update(newer, release.assets@) is Some
                &&& (url matches Some(found) ==> Some(found@) == chosen_update(
                    newer,
                    release.assets@,
                ))
            }),
    {
        if !is_version(current_version) {
            return Err(UpdateError::CurrentVersion);
        }
        let remote = trim_start_matches(release.tag_name.as_str(), 'v');
        match version_exceeds(remote, current_version) {
            Some(newer) => Ok(choose_update(newer, &release.assets)),
            None => Err(UpdateError::ReleaseVersion),
        }
    }
}

} // verus!
