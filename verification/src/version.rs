//! Decisions of the self-update flow: whether an update is needed, which
//! published asset to take, what each installation step's failure means,
//! and whether a failure may be ignored.
//!
//! The network requests, the version probe and the file writes live in
//! the caller, which reports each step's outcome as plain values; every
//! decision about those outcomes is made and verified here.

use vstd::prelude::*;
use vstd::string::StringExecFns;
use crate::errors::DownloadError;

verus! {

pub open spec fn opt_string_view(o: Option<String>) -> Option<Seq<char>> {
    match o {
        Some(s) => Some(s@),
        None => None,
    }
}

/// An update is needed exactly when no current version is known, or the
/// installed version differs from the latest published one.
pub open spec fn spec_needs_update(current: Option<Seq<char>>, latest: Seq<char>) -> bool {
    match current {
        None => true,
        Some(c) => c != latest,
    }
}

/// Versions are compared as plain strings; no semantic ordering is
/// applied.
pub fn needs_update(current: &Option<String>, latest: &str) -> (r: bool)
    ensures
        r == spec_needs_update(opt_string_view(*current), latest@),
{
    match current {
        None => true,
        Some(c) => {
            let l = String::from_str(latest);
            !(*c == l)
        },
    }
}

/// One downloadable file of a published release.
#[derive(Debug, Clone)]
pub struct Asset {
    pub name: String,
    pub url: String,
}

/// A published release: its version tag and its named assets.
#[derive(Debug, Clone)]
pub struct Release {
    pub tag: String,
    pub assets: Vec<Asset>,
}

/// The retrieval address of the first asset bearing exactly the sought
/// name, if any.
pub open spec fn find_asset(assets: Seq<Asset>, name: Seq<char>) -> Option<Seq<char>>
    decreases assets.len(),
{
    if assets.len() == 0 {
        None
    } else if assets.first().name@ == name {
        Some(assets.first().url@)
    } else {
        find_asset(assets.drop_first(), name)
    }
}

/// Locate the platform's asset in a release by exact name match.
pub fn select_asset(release: &Release, name: &str) -> (r: Option<String>)
    ensures
        match r {
            Some(u) => find_asset(release.assets@, name@) == Some(u@),
            None => find_asset(release.assets@, name@) is None,
        },
{
    let sought = String::from_str(name);
    let n = release.assets.len();
    proof {
        assert(release.assets@.skip(0) =~= release.assets@);
    }
    let mut i: usize = 0;
    while i < n
        invariant
            n == release.assets@.len(),
            0 <= i <= n,
            sought@ == name@,
            find_asset(release.assets@, name@) == find_asset(
                release.assets@.skip(i as int),
                name@,
            ),
        decreases n - i,
    {
        proof {
            assert(release.assets@.skip(i as int).first() == release.assets@[i as int]);
            assert(release.assets@.skip(i as int).drop_first() =~= release.assets@.skip(i + 1));
        }
        let a = &release.assets[i];
        if a.name == sought {
            return Some(a.url.clone());
        }
        i = i + 1;
    }
    proof {
        assert(release.assets@.skip(i as int).len() == 0);
    }
    None
}

/// What the update check decided.
#[derive(Debug, Clone)]
pub enum UpdatePlan {
    /// The installed tool already carries the latest tag.
    UpToDate,
    /// Fetch and install the asset at this address.
    Install(String),
    /// An update is due but the release names no asset for this
    /// platform.
    NoAsset,
}

/// Decide what to do about a fetched release: nothing when up to date,
/// otherwise install the platform's asset, or report that the release
/// lacks it.
pub fn plan_update(current: &Option<String>, release: &Release, asset_name: &str) -> (p:
    UpdatePlan)
    ensures
        !spec_needs_update(opt_string_view(*current), release.tag@) ==> p matches
            UpdatePlan::UpToDate,
        spec_needs_update(opt_string_view(*current), release.tag@) ==> match find_asset(
            release.assets@,
            asset_name@,
        ) {
            Some(u) => p matches UpdatePlan::Install(x) && x@ == u,
            None => p matches UpdatePlan::NoAsset,
        },
{
    if !needs_update(current, release.tag.as_str()) {
        UpdatePlan::UpToDate
    } else {
        match select_asset(release, asset_name) {
            Some(u) => UpdatePlan::Install(u),
            None => UpdatePlan::NoAsset,
        }
    }
}

/// Read the outcome of the installation steps the caller performed, in
/// their order: the asset request, the creation of missing parent
/// directories, the write, and the re-read of the staged file's size.
/// Each failure is surfaced as the kind the caller must distinguish.
pub fn classify_install(
    request_ok: bool,
    dirs_ok: bool,
    write_ok: bool,
    staged_len: Option<u64>,
) -> (r: Result<(), DownloadError>)
    ensures
        !request_ok ==> (r matches Err(e) && e matches DownloadError::NetworkError(d) && d@
            == "asset request failed or timed out"@),
        (request_ok && !dirs_ok) ==> (r matches Err(e) && e matches DownloadError::IoError(d)
            && d@ == "could not create the destination directory"@),
        (request_ok && dirs_ok && !write_ok) ==> (r matches Err(e) && e matches
            DownloadError::IoError(d) && d@ == "could not write the staged file"@),
        (request_ok && dirs_ok && write_ok) ==> match staged_len {
            Some(l) => if l > 0 {
                r is Ok
            } else {
                r matches Err(e) && e matches DownloadError::VerificationError
            },
            None => r matches Err(e) && e matches DownloadError::VerificationError,
        },
{
    if !request_ok {
        Err(DownloadError::NetworkError(String::from_str("asset request failed or timed out")))
    } else if !dirs_ok {
        Err(DownloadError::IoError(String::from_str("could not create the destination directory")))
    } else if !write_ok {
        Err(DownloadError::IoError(String::from_str("could not write the staged file")))
    } else {
        match staged_len {
            Some(l) => if l > 0 {
                Ok(())
            } else {
                Err(DownloadError::VerificationError)
            },
            None => Err(DownloadError::VerificationError),
        }
    }
}

/// Whether a failed update lets the operation go on.
#[derive(Debug)]
pub enum UpdateConclusion {
    /// The tool is present and current; proceed.
    Ready,
    /// The update failed but a usable binary already exists: proceed
    /// with the stale tool, logging the carried failure as a warning.
    StaleButUsable(DownloadError),
    /// The update failed and no binary exists at all; the carried
    /// failure is fatal to the operation.
    Fatal(DownloadError),
}

/// An update failure is swallowed when a usable binary already exists;
/// it stops the operation only when there is no binary at all.
pub fn conclude_update(result: Result<(), DownloadError>, binary_exists: bool) -> (c:
    UpdateConclusion)
    ensures
        match result {
            Ok(_) => c matches UpdateConclusion::Ready,
            Err(e) => if binary_exists {
                c matches UpdateConclusion::StaleButUsable(w) && w == e
            } else {
                c matches UpdateConclusion::Fatal(w) && w == e
            },
        },
{
    match result {
        Ok(_) => UpdateConclusion::Ready,
        Err(e) => if binary_exists {
            UpdateConclusion::StaleButUsable(e)
        } else {
            UpdateConclusion::Fatal(e)
        },
    }
}

} // verus!
