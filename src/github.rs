//! The release catalog: its record shapes, the endpoints that serve it, how a
//! response status is read, and how a release is narrowed to a download target.
use vstd::prelude::*;

use crate::text::{ends_with, is_suffix_of};

verus! {

/// A downloadable file attached to a release.
#[derive(Debug, Clone, PartialEq, Eq)]
pub struct GitHubAsset {
    pub name: String,
    pub browser_download_url: String,
    pub size: u64,
    pub content_type: String,
}

/// A tagged entry of the release catalog, with its assets in catalog order.
#[derive(Debug, Clone, PartialEq, Eq)]
pub struct GitHubRelease {
    pub tag_name: String,
    pub name: String,
    pub published_at: String,
    pub prerelease: bool,
    pub draft: bool,
    pub assets: Vec<GitHubAsset>,
}

/// Why a catalog request or an asset selection gave no usable result.
#[derive(Debug, Clone, PartialEq, Eq)]
pub enum ReleaseError {
    /// The catalog could not be reached.
    RemoteUnavailable { reason: String },
    /// The catalog answered with a status outside the success range.
    RemoteRejected { status: u16, body: String },
    /// The catalog reports that no release carries this tag.
    VersionNotFound { tag: String },
    /// The release holds no asset for the requested platform.
    NoMatchingAsset,
    /// The catalog's answer lacks a field that a release or an asset needs.
    MalformedResponse { reason: String },
}

/// The request header that identifies this client, and its value.
pub const USER_AGENT_HEADER: &'static str = "User-Agent";
pub const USER_AGENT: &'static str = "cvm-cli";

/// The HTTP status by which the catalog reports a missing release.
pub const NOT_FOUND: u16 = 404;

pub open spec fn api_root() -> Seq<char> {
    "https://api.github.com/repos/"@
}

/// The endpoint that lists every release of `owner/repo`.
pub open spec fn releases_endpoint(owner: Seq<char>, repo: Seq<char>) -> Seq<char> {
    api_root() + owner + "/"@ + repo + "/releases"@
}

/// The endpoint of the release tagged `tag`.
pub open spec fn tag_endpoint(owner: Seq<char>, repo: Seq<char>, tag: Seq<char>) -> Seq<char> {
    releases_endpoint(owner, repo) + "/tags/"@ + tag
}

/// The endpoint of the release that the catalog marks as latest.
pub open spec fn latest_endpoint(owner: Seq<char>, repo: Seq<char>) -> Seq<char> {
    releases_endpoint(owner, repo) + "/latest"@
}

/// URL of the full release list of `owner/repo`.
pub fn releases_url(owner: &str, repo: &str) -> (r: String)
    ensures
        r@ == releases_endpoint(owner@, repo@),
{
    let mut url = String::from_str("https://api.github.com/repos/");
    url.append(owner);
    url.append("/");
    url.append(repo);
    url.append("/releases");
    proof {
        reveal_strlit("https://api.github.com/repos/");
        reveal_strlit("/");
        reveal_strlit("/releases");
    }
    url
}

/// URL of the release of `owner/repo` tagged exactly `tag`.
pub fn release_by_tag_url(owner: &str, repo: &str, tag: &str) -> (r: String)
    ensures
        r@ == tag_endpoint(owner@, repo@, tag@),
{
    let mut url = releases_url(owner, repo);
    url.append("/tags/");
    url.append(tag);
    proof {
        reveal_strlit("/tags/");
    }
    url
}

/// URL of the release of `owner/repo` that the catalog marks as latest.
pub fn latest_release_url(owner: &str, repo: &str) -> (r: String)
    ensures
        r@ == latest_endpoint(owner@, repo@),
{
    let mut url = releases_url(owner, repo);
    url.append("/latest");
    proof {
        reveal_strlit("/latest");
    }
    url
}

pub open spec fn is_success(status: u16) -> bool {
    200 <= status < 300
}

/// Reads the status of an answer to a list or latest request: a success
/// status lets the body be decoded, any other is a rejection that carries the
/// status and the body.
pub fn check_catalog_status(status: u16, body: String) -> (r: Result<(), ReleaseError>)
    ensures
        is_success(status) ==> r == Ok::<(), ReleaseError>(()),
        !is_success(status) ==> r == Err::<(), ReleaseError>(
            ReleaseError::RemoteRejected { status, body },
        ),
{
    if 200 <= status && status < 300 {
        Ok(())
    } else {
        Err(ReleaseError::RemoteRejected { status, body })
    }
}

/// Reads the status of an answer to a request for the release tagged `tag`:
/// as `check_catalog_status`, except that a not-found status names the tag.
pub fn check_tag_status(status: u16, body: String, tag: &str) -> (r: Result<(), ReleaseError>)
    ensures
        is_success(status) ==> r == Ok::<(), ReleaseError>(()),
        status == NOT_FOUND ==> (r matches Err(ReleaseError::VersionNotFound { tag: t })
            && t@ == tag@),
        !is_success(status) && status != NOT_FOUND ==> r == Err::<(), ReleaseError>(
            ReleaseError::RemoteRejected { status, body },
        ),
{
    if status == NOT_FOUND {
        Err(ReleaseError::VersionNotFound { tag: String::from_str(tag) })
    } else {
        check_catalog_status(status, body)
    }
}

/// The asset is built for the platform named by `suffix`.
pub open spec fn asset_matches(asset: GitHubAsset, suffix: Seq<char>) -> bool {
    is_suffix_of(suffix, asset.name@)
}

/// No asset of `assets` at or after position `from` matches `suffix`.
pub open spec fn none_match_from(assets: Seq<GitHubAsset>, suffix: Seq<char>, from: int) -> bool {
    forall|j: int| from <= j < assets.len() ==> !asset_matches(#[trigger] assets[j], suffix)
}

/// Position `i` holds the last asset of `assets` built for the platform `suffix`.
pub open spec fn is_last_match(assets: Seq<GitHubAsset>, suffix: Seq<char>, i: int) -> bool {
    &&& 0 <= i < assets.len()
    &&& asset_matches(assets[i], suffix)
    &&& none_match_from(assets, suffix, i + 1)
}

/// Position of the last asset whose name ends with `suffix`, or `None` when
/// no name does. Every asset is looked at; a later match replaces an earlier.
pub fn last_matching_index(assets: &Vec<GitHubAsset>, suffix: &str) -> (r: Option<usize>)
    ensures
        r is None <==> none_match_from(assets@, suffix@, 0),
        r matches Some(i) ==> is_last_match(assets@, suffix@, i as int),
{
    let mut found: Option<usize> = None;
    let mut k: usize = 0;
    while k < assets.len()
        invariant
            k <= assets@.len(),
            found is None ==> forall|j: int| 0 <= j < k ==> !asset_matches(
                #[trigger] assets@[j],
                suffix@,
            ),
            found matches Some(i) ==> i < k && asset_matches(assets@[i as int], suffix@)
                && forall|j: int| i < j < k ==> !asset_matches(#[trigger] assets@[j], suffix@),
        decreases assets@.len() - k,
    {
        if ends_with(assets[k].name.as_str(), suffix) {
            found = Some(k);
        }
        k = k + 1;
    }
    found
}

/// The asset of `release` built for the platform named by `suffix`: the last
/// one in catalog order whose name ends with it. A release without such an
/// asset gives `NoMatchingAsset`, never a stand-in.
pub fn select_asset_for_platform<'a>(release: &'a GitHubRelease, suffix: &str) -> (r: Result<
    &'a GitHubAsset,
    ReleaseError,
>)
    ensures
        r is Ok <==> exists|i: int|
            0 <= i < release.assets@.len() && asset_matches(
                #[trigger] release.assets@[i],
                suffix@,
            ),
        r is Err ==> r == Err::<&GitHubAsset, ReleaseError>(ReleaseError::NoMatchingAsset),
        r matches Ok(a) ==> exists|i: int|
            #[trigger] is_last_match(release.assets@, suffix@, i) && *a == release.assets@[i],
        forall|i: int|
            0 <= i < release.assets@.len() && asset_matches(
                #[trigger] release.assets@[i],
                suffix@,
            ) && (forall|j: int|
                0 <= j < release.assets@.len() && j != i ==> !asset_matches(
                    release.assets@[j],
                    suffix@,
                )) ==> (r matches Ok(a) && *a == release.assets@[i]),
{
    match last_matching_index(&release.assets, suffix) {
        Some(i) => {
            Ok(&release.assets[i])
        },
        None => {
            Err(ReleaseError::NoMatchingAsset)
        },
    }
}

/// The download URL of every asset of `release`, in asset order.
pub fn list_download_urls(release: &GitHubRelease) -> (r: Vec<String>)
    ensures
        r@.len() == release.assets@.len(),
        forall|i: int|
            0 <= i < r@.len() ==> #[trigger] r@[i]@ == release.assets@[i].browser_download_url@,
{
    let mut urls: Vec<String> = Vec::new();
    let mut k: usize = 0;
    while k < release.assets.len()
        invariant
            k <= release.assets@.len(),
            urls@.len() == k,
            forall|i: int|
                0 <= i < k ==> #[trigger] urls@[i]@ == release.assets@[i].browser_download_url@,
        decreases release.assets@.len() - k,
    {
        urls.push(release.assets[k].browser_download_url.clone());
        k = k + 1;
    }
    urls
}

/// Selection is deterministic: at most one position of a list of assets holds
/// its last match, so equal lists select the same asset.
pub proof fn lemma_last_match_unique(assets: Seq<GitHubAsset>, suffix: Seq<char>, i: int, j: int)
    requires
        is_last_match(assets, suffix, i),
        is_last_match(assets, suffix, j),
    ensures
        i == j,
{
    if i < j {
        assert(!asset_matches(assets[j], suffix));
    } else if j < i {
        assert(!asset_matches(assets[i], suffix));
    }
}

/// The URL of the last asset of `assets` whose name ends with `suffix`.
pub open spec fn is_platform_url(url: Seq<char>, assets: Seq<GitHubAsset>, suffix: Seq<char>) -> bool {
    exists|j: int| #[trigger]
        is_last_match(assets, suffix, j) && url == assets[j].browser_download_url@
}

/// The download URL of the asset that `select_asset_for_platform` picks, or
/// `None` when the release has no asset for the platform.
pub fn platform_download_url(release: &GitHubRelease, suffix: &str) -> (r: Option<String>)
    ensures
        r is None <==> none_match_from(release.assets@, suffix@, 0),
        r matches Some(u) ==> is_platform_url(u@, release.assets@, suffix@),
{
    match last_matching_index(&release.assets, suffix) {
        Some(i) => {
            let url = release.assets[i].browser_download_url.clone();
            Some(url)
        },
        None => None,
    }
}

/// One line of a release overview: the tag and the platform's download URL.
pub struct ReleaseLine {
    pub tag: String,
    pub url: Option<String>,
}

/// The first releases of a catalog, each with its platform URL, and how many
/// releases were left out.
pub struct ReleaseListing {
    pub lines: Vec<ReleaseLine>,
    pub more: usize,
}

/// `line` gives the tag of `release` and the URL of its asset for `suffix`.
pub open spec fn line_describes(line: ReleaseLine, release: GitHubRelease, suffix: Seq<char>) -> bool {
    &&& line.tag@ == release.tag_name@
    &&& line.url is None <==> none_match_from(release.assets@, suffix, 0)
    &&& line.url matches Some(u) ==> is_platform_url(u@, release.assets@, suffix)
}

/// How many releases an overview shows at most.
pub const RELEASES_SHOWN: usize = 20;

/// The overview of `releases`: the first `limit` of them in catalog order,
/// each with its tag and the URL of its asset for the platform `suffix`, and
/// the count of those beyond `limit`.
pub fn release_listing(releases: &Vec<GitHubRelease>, suffix: &str, limit: usize) -> (r:
    ReleaseListing)
    ensures
        r.lines@.len() == if releases@.len() < limit {
            releases@.len() as int
        } else {
            limit as int
        },
        r.more == releases@.len() - r.lines@.len(),
        forall|i: int|
            0 <= i < r.lines@.len() ==> line_describes(#[trigger] r.lines@[i], releases@[i], suffix@),
{
    let shown: usize = if releases.len() < limit {
        releases.len()
    } else {
        limit
    };
    let mut lines: Vec<ReleaseLine> = Vec::new();
    let mut k: usize = 0;
    while k < shown
        invariant
            shown <= releases@.len(),
            k <= shown,
            lines@.len() == k,
            forall|i: int|
                0 <= i < k ==> line_describes(#[trigger] lines@[i], releases@[i], suffix@),
        decreases shown - k,
    {
        let release = &releases[k];
        let line = ReleaseLine {
            tag: release.tag_name.clone(),
            url: platform_download_url(release, suffix),
        };
        lines.push(line);
        k = k + 1;
    }
    ReleaseListing { lines, more: releases.len() - shown }
}

} // verus!
