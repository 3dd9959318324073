use cvm::github::{
    check_catalog_status, check_tag_status, last_matching_index, latest_release_url,
    list_download_urls, platform_download_url, release_by_tag_url, release_listing,
    releases_url, select_asset_for_platform, GitHubAsset, GitHubRelease, ReleaseError,
    RELEASES_SHOWN,
};

fn asset(name: &str) -> GitHubAsset {
    GitHubAsset {
        name: name.to_string(),
        browser_download_url: format!("https://example.com/dl/{}", name),
        size: 1024,
        content_type: "application/octet-stream".to_string(),
    }
}

fn release(tag: &str, names: &[&str]) -> GitHubRelease {
    GitHubRelease {
        tag_name: tag.to_string(),
        name: format!("release {}", tag),
        published_at: "2024-01-01T00:00:00Z".to_string(),
        prerelease: false,
        draft: false,
        assets: names.iter().map(|n| asset(n)).collect(),
    }
}

#[test]
fn select_single_match_picks_that_asset() {
    let r = release("v1", &["pkg-linux-amd64", "pkg-darwin-amd64"]);
    let a = select_asset_for_platform(&r, "linux-amd64").unwrap();
    assert_eq!(a.name, "pkg-linux-amd64");
    assert_eq!(a.browser_download_url, "https://example.com/dl/pkg-linux-amd64");
}

#[test]
fn select_other_platform() {
    let r = release("v1", &["pkg-linux-amd64", "pkg-darwin-amd64"]);
    let a = select_asset_for_platform(&r, "darwin-amd64").unwrap();
    assert_eq!(a.name, "pkg-darwin-amd64");
}

#[test]
fn select_last_of_several_matches() {
    let r = release("v2", &["a-linux-amd64", "b-linux-arm64", "c-linux-amd64", "d.deb"]);
    let first = select_asset_for_platform(&r, "linux-amd64").unwrap();
    assert_eq!(first.name, "c-linux-amd64");
    let again = select_asset_for_platform(&r, "linux-amd64").unwrap();
    assert_eq!(first, again);
    assert_eq!(last_matching_index(&r.assets, "linux-amd64"), Some(2));
}

#[test]
fn select_no_match_is_error() {
    let r = release("v1", &["pkg-darwin-amd64", "pkg-linux-amd64.deb"]);
    assert_eq!(select_asset_for_platform(&r, "linux-amd64"), Err(ReleaseError::NoMatchingAsset));
    assert_eq!(last_matching_index(&r.assets, "linux-amd64"), None);
}

#[test]
fn select_on_empty_release_is_error() {
    let r = release("v1", &[]);
    assert_eq!(select_asset_for_platform(&r, "linux-amd64"), Err(ReleaseError::NoMatchingAsset));
}

#[test]
fn suffix_longer_than_name_does_not_match() {
    let r = release("v1", &["amd64"]);
    assert_eq!(select_asset_for_platform(&r, "linux-amd64"), Err(ReleaseError::NoMatchingAsset));
}

#[test]
fn whole_name_as_suffix_matches() {
    let r = release("v1", &["linux-amd64"]);
    assert_eq!(select_asset_for_platform(&r, "linux-amd64").unwrap().name, "linux-amd64");
}

#[test]
fn download_urls_keep_order_and_length() {
    let r = release("v3", &["x", "y", "z"]);
    let urls = list_download_urls(&r);
    assert_eq!(
        urls,
        vec![
            "https://example.com/dl/x".to_string(),
            "https://example.com/dl/y".to_string(),
            "https://example.com/dl/z".to_string(),
        ]
    );
    assert!(list_download_urls(&release("v0", &[])).is_empty());
}

#[test]
fn platform_url_of_release() {
    let r = release("v1", &["pkg-linux-amd64", "pkg-darwin-amd64"]);
    assert_eq!(
        platform_download_url(&r, "linux-amd64"),
        Some("https://example.com/dl/pkg-linux-amd64".to_string())
    );
    assert_eq!(platform_download_url(&r, "windows-amd64.exe"), None);
}

#[test]
fn listing_takes_first_releases_in_catalog_order() {
    let releases: Vec<GitHubRelease> = (0..25)
        .map(|i| {
            if i % 2 == 0 {
                release(&format!("v{}", 25 - i), &["c-linux-amd64", "c-darwin-amd64"])
            } else {
                release(&format!("v{}", 25 - i), &["c-darwin-amd64"])
            }
        })
        .collect();
    let listing = release_listing(&releases, "linux-amd64", RELEASES_SHOWN);
    assert_eq!(listing.lines.len(), 20);
    assert_eq!(listing.more, 5);
    assert_eq!(listing.lines[0].tag, "v25");
    assert_eq!(listing.lines[0].url, Some("https://example.com/dl/c-linux-amd64".to_string()));
    assert_eq!(listing.lines[1].tag, "v24");
    assert_eq!(listing.lines[1].url, None);
    assert_eq!(listing.lines[19].tag, "v6");
}

#[test]
fn listing_of_short_catalog_shows_all() {
    let releases = vec![release("v2", &["a-linux-amd64"]), release("v1", &[])];
    let listing = release_listing(&releases, "linux-amd64", RELEASES_SHOWN);
    assert_eq!(listing.lines.len(), 2);
    assert_eq!(listing.more, 0);
    assert_eq!(listing.lines[1].tag, "v1");
    assert_eq!(listing.lines[1].url, None);
}

#[test]
fn endpoint_urls() {
    assert_eq!(
        releases_url("cloudflare", "cloudflared"),
        "https://api.github.com/repos/cloudflare/cloudflared/releases"
    );
    assert_eq!(
        release_by_tag_url("cloudflare", "cloudflared", "2024.1.5"),
        "https://api.github.com/repos/cloudflare/cloudflared/releases/tags/2024.1.5"
    );
    assert_eq!(
        latest_release_url("cloudflare", "cloudflared"),
        "https://api.github.com/repos/cloudflare/cloudflared/releases/latest"
    );
}

#[test]
fn catalog_status_success_range() {
    assert_eq!(check_catalog_status(200, String::new()), Ok(()));
    assert_eq!(check_catalog_status(299, String::new()), Ok(()));
    assert_eq!(
        check_catalog_status(403, "rate limited".to_string()),
        Err(ReleaseError::RemoteRejected { status: 403, body: "rate limited".to_string() })
    );
    assert_eq!(
        check_catalog_status(300, String::new()),
        Err(ReleaseError::RemoteRejected { status: 300, body: String::new() })
    );
}

#[test]
fn missing_tag_is_version_not_found() {
    assert_eq!(
        check_tag_status(404, "Not Found".to_string(), "v999"),
        Err(ReleaseError::VersionNotFound { tag: "v999".to_string() })
    );
    assert_eq!(check_tag_status(200, String::new(), "v1"), Ok(()));
    assert_eq!(
        check_tag_status(500, "oops".to_string(), "v1"),
        Err(ReleaseError::RemoteRejected { status: 500, body: "oops".to_string() })
    );
}
