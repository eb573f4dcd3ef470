use toolport::github::{GitHubAsset, GitHubRelease};
use toolport::updater::{choose_update, find_installer, UpdateError, UpdateManager};

fn asset(name: &str, url: &str) -> GitHubAsset {
    GitHubAsset { name: name.to_string(), browser_download_url: url.to_string() }
}

fn release(tag: &str, assets: Vec<GitHubAsset>) -> GitHubRelease {
    GitHubRelease { tag_name: tag.to_string(), assets }
}

fn files() -> Vec<GitHubAsset> {
    vec![
        asset("toolport.tar.gz", "https://example.com/a"),
        asset("toolport-setup.exe", "https://example.com/b"),
        asset("toolport-portable.exe", "https://example.com/c"),
    ]
}

#[test]
fn manager_keeps_the_repository_and_builds_the_address() {
    let manager = UpdateManager::new("kamau/toolport");
    assert_eq!(manager.repo, "kamau/toolport");
    assert_eq!(
        manager.release_url(),
        "https://api.github.com/repos/kamau/toolport/releases/latest"
    );
    assert_eq!(UpdateManager::new("").release_url(), "https://api.github.com/repos//releases/latest");
}

#[test]
fn the_first_executable_is_the_installer() {
    assert_eq!(find_installer(&files()).as_deref(), Some("https://example.com/b"));
    assert_eq!(find_installer(&Vec::new()), None);
    assert_eq!(find_installer(&vec![asset("notes.txt", "u"), asset("exe", "v")]), None);
    assert_eq!(find_installer(&vec![asset("setup.EXE", "u")]), None);
    assert_eq!(find_installer(&vec![asset(".exe", "u")]).as_deref(), Some("u"));
    assert_eq!(find_installer(&vec![asset("a.exe.sig", "u"), asset("a.exe", "v")]).as_deref(), Some("v"));
}

#[test]
fn an_update_is_chosen_only_for_a_newer_release() {
    assert_eq!(choose_update(true, &files()).as_deref(), Some("https://example.com/b"));
    assert_eq!(choose_update(false, &files()), None);
    assert_eq!(choose_update(true, &Vec::new()), None);
}

#[test]
fn a_newer_release_with_an_executable_is_offered() {
    let manager = UpdateManager::new("kamau/toolport");
    let found = manager.check_for_update("1.2.3", &release("v1.3.0", files()));
    assert_eq!(found, Ok(Some("https://example.com/b".to_string())));
    let untagged = manager.check_for_update("1.2.3", &release("1.2.4", files()));
    assert_eq!(untagged, Ok(Some("https://example.com/b".to_string())));
    let doubled = manager.check_for_update("1.2.3", &release("vv2.0.0", files()));
    assert_eq!(doubled, Ok(Some("https://example.com/b".to_string())));
    let numeric = manager.check_for_update("1.5.0", &release("v1.19.0", files()));
    assert_eq!(numeric, Ok(Some("https://example.com/b".to_string())));
}

#[test]
fn an_equal_or_older_release_is_passed_over() {
    let manager = UpdateManager::new("kamau/toolport");
    assert_eq!(manager.check_for_update("1.2.3", &release("v1.2.3", files())), Ok(None));
    assert_eq!(manager.check_for_update("1.2.3", &release("v1.2.2", files())), Ok(None));
    assert_eq!(manager.check_for_update("1.19.0", &release("v1.5.0", files())), Ok(None));
    assert_eq!(manager.check_for_update("1.0.0", &release("v1.0.0-rc.1", files())), Ok(None));
    assert_eq!(
        manager.check_for_update("1.0.0-rc.1", &release("v1.0.0", files())),
        Ok(Some("https://example.com/b".to_string()))
    );
}

#[test]
fn a_newer_release_without_an_executable_offers_nothing() {
    let manager = UpdateManager::new("kamau/toolport");
    let bare = release("v9.0.0", vec![asset("toolport.tar.gz", "https://example.com/a")]);
    assert_eq!(manager.check_for_update("1.2.3", &bare), Ok(None));
}

#[test]
fn versions_that_do_not_parse_are_errors() {
    let manager = UpdateManager::new("kamau/toolport");
    assert_eq!(
        manager.check_for_update("1.2", &release("v1.3.0", files())),
        Err(UpdateError::CurrentVersion)
    );
    assert_eq!(
        manager.check_for_update("", &release("nonsense", files())),
        Err(UpdateError::CurrentVersion)
    );
    assert_eq!(
        manager.check_for_update("1.2.3", &release("release-1.3.0", files())),
        Err(UpdateError::ReleaseVersion)
    );
    assert_eq!(
        manager.check_for_update("1.2.3", &release("v", files())),
        Err(UpdateError::ReleaseVersion)
    );
    assert_eq!(
        manager.check_for_update("1.2.3", &release("V1.3.0", files())),
        Err(UpdateError::ReleaseVersion)
    );
    assert_eq!(
        manager.check_for_update("1.2.3", &release("v1.03.0", files())),
        Err(UpdateError::ReleaseVersion)
    );
}
