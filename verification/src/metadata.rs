//! Media metadata: the fields shown for a fetched item, their defaults,
//! and their extraction from the tool's JSON dump, plus the parsing of
//! the release feed.
//!
//! serde_json does the JSON work behind two trusted wrappers, one per
//! document shape.  What each wrapper returns is a function of the input
//! text alone, so every extracted field is given a name as a function of
//! that text, and the public parsers' contracts are exact over those
//! names: which texts are accepted, and what is built from each field.

use vstd::prelude::*;
use vstd::string::StringExecFns;
use crate::errors::DownloadError;
use crate::format::format_duration;
use crate::format::spec_duration;
use crate::version::opt_string_view;
use crate::version::Asset;
use crate::version::Release;

verus! {

/// What is displayed for a fetched media item.
#[derive(Debug, Clone)]
pub struct VideoInfo {
    pub title: String,
    /// Pre-formatted as `H:MM:SS` or `M:SS`.
    pub duration: String,
    pub uploader: String,
    pub view_count: Option<u64>,
    pub thumbnail: Option<String>,
}

/// Whether the metadata dump parses as a JSON document.
pub uninterp spec fn meta_json_ok(s: Seq<char>) -> bool;

/// The dump's `title` field, when it is a string.
pub uninterp spec fn meta_title_of(s: Seq<char>) -> Option<Seq<char>>;

/// The dump's `duration` field in whole seconds: a number, truncated
/// toward zero, clamped to the unsigned range.
pub uninterp spec fn meta_duration_of(s: Seq<char>) -> Option<u64>;

/// The dump's `uploader` field, when it is a string.
pub uninterp spec fn meta_uploader_of(s: Seq<char>) -> Option<Seq<char>>;

/// The dump's `view_count` field, when it is an unsigned integer.
pub uninterp spec fn meta_views_of(s: Seq<char>) -> Option<u64>;

/// The dump's `thumbnail` field, when it is a string.
pub uninterp spec fn meta_thumb_of(s: Seq<char>) -> Option<Seq<char>>;

/// The display fields read out of one metadata dump.
struct MetaFields {
    title: Option<String>,
    duration_secs: Option<u64>,
    uploader: Option<String>,
    view_count: Option<u64>,
    thumbnail: Option<String>,
}

/// Relies on serde_json::from_str and Value's get, as_str, as_f64 and
/// as_u64: parses the metadata dump and reads its display fields.  The
/// outcome depends on the text alone, so each field carries its name.
#[verifier::external_body]
fn meta_fields_raw(s: &str) -> (r: Result<MetaFields, String>)
    ensures
        match r {
            Ok(f) => {
                &&& meta_json_ok(s@)
                &&& opt_string_view(f.title) == meta_title_of(s@)
                &&& f.duration_secs == meta_duration_of(s@)
                &&& opt_string_view(f.uploader) == meta_uploader_of(s@)
                &&& f.view_count == meta_views_of(s@)
                &&& opt_string_view(f.thumbnail) == meta_thumb_of(s@)
            },
            Err(_) => !meta_json_ok(s@),
        },
{
    match serde_json::from_str::<serde_json::Value>(s) {
        Ok(v) => Ok(MetaFields {
            title: v.get("title").and_then(|x| x.as_str()).map(String::from),
            duration_secs: v.get("duration").and_then(|x| x.as_f64()).map(|d| d as u64),
            uploader: v.get("uploader").and_then(|x| x.as_str()).map(String::from),
            view_count: v.get("view_count").and_then(|x| x.as_u64()),
            thumbnail: v.get("thumbnail").and_then(|x| x.as_str()).map(String::from),
        }),
        Err(e) => Err(e.to_string()),
    }
}

/// Assemble the displayed metadata from the extracted fields: missing
/// text fields fall back to "Unknown", a missing duration reads as zero
/// seconds, and the optional fields stay optional.
pub fn build_video_info(
    title: Option<String>,
    duration_secs: Option<u64>,
    uploader: Option<String>,
    view_count: Option<u64>,
    thumbnail: Option<String>,
) -> (v: VideoInfo)
    ensures
        v.title@ == match title {
            Some(t) => t@,
            None => "Unknown"@,
        },
        v.duration@ == spec_duration(
            match duration_secs {
                Some(d) => d as int,
                None => 0,
            },
        ),
        v.uploader@ == match uploader {
            Some(u) => u@,
            None => "Unknown"@,
        },
        v.view_count == view_count,
        v.thumbnail == thumbnail,
{
    let title = match title {
        Some(t) => t,
        None => String::from_str("Unknown"),
    };
    let secs: u64 = match duration_secs {
        Some(d) => d,
        None => 0,
    };
    let uploader = match uploader {
        Some(u) => u,
        None => String::from_str("Unknown"),
    };
    VideoInfo {
        title,
        duration: format_duration(secs),
        uploader,
        view_count,
        thumbnail,
    }
}

/// Parse the tool's metadata dump.  The dump is accepted exactly when it
/// is JSON; each display field is then built from the named field of the
/// text, with `build_video_info`'s defaults.
pub fn parse_metadata_output(stdout_text: &str) -> (r: Result<VideoInfo, DownloadError>)
    ensures
        (r is Ok) <==> meta_json_ok(stdout_text@),
        match r {
            Ok(v) => {
                &&& v.title@ == match meta_title_of(stdout_text@) {
                    Some(t) => t,
                    None => "Unknown"@,
                }
                &&& v.duration@ == spec_duration(
                    match meta_duration_of(stdout_text@) {
                        Some(d) => d as int,
                        None => 0,
                    },
                )
                &&& v.uploader@ == match meta_uploader_of(stdout_text@) {
                    Some(u) => u,
                    None => "Unknown"@,
                }
                &&& v.view_count == meta_views_of(stdout_text@)
                &&& opt_string_view(v.thumbnail) == meta_thumb_of(stdout_text@)
            },
            Err(e) => e matches DownloadError::ParseError(_),
        },
{
    match meta_fields_raw(stdout_text) {
        Ok(f) => Ok(
            build_video_info(f.title, f.duration_secs, f.uploader, f.view_count, f.thumbnail),
        ),
        Err(e) => Err(DownloadError::ParseError(e)),
    }
}

/// Whether the release feed parses as a JSON document.
pub uninterp spec fn release_json_ok(s: Seq<char>) -> bool;

/// The feed's `tag_name` field, when it is a string.
pub uninterp spec fn release_tag_of(s: Seq<char>) -> Option<Seq<char>>;

/// Whether the feed carries an `assets` list.
pub uninterp spec fn release_has_assets(s: Seq<char>) -> bool;

/// The feed's asset entries in list order: each entry's `name` and
/// `browser_download_url` fields, when they are strings.
pub uninterp spec fn release_entries_of(s: Seq<char>) -> Seq<
    (Option<Seq<char>>, Option<Seq<char>>),
>;

/// The raw shape of one release feed: its tag and its asset entries,
/// each field as the document gave it.
struct RawRelease {
    tag: Option<String>,
    entries: Option<Vec<(Option<String>, Option<String>)>>,
}

/// The entries' text, field by field.
spec fn entries_view(es: Seq<(Option<String>, Option<String>)>) -> Seq<
    (Option<Seq<char>>, Option<Seq<char>>),
> {
    es.map_values(|p: (Option<String>, Option<String>)| (opt_string_view(p.0), opt_string_view(p.1)))
}

/// Relies on serde_json::from_str and Value's get, as_str and as_array:
/// parses the release feed and reads its tag and asset entries.  The
/// outcome depends on the text alone, so each part carries its name.
#[verifier::external_body]
fn release_raw(s: &str) -> (r: Result<RawRelease, String>)
    ensures
        match r {
            Ok(raw) => {
                &&& release_json_ok(s@)
                &&& opt_string_view(raw.tag) == release_tag_of(s@)
                &&& match raw.entries {
                    Some(list) => release_has_assets(s@) && entries_view(list@)
                        == release_entries_of(s@),
                    None => !release_has_assets(s@),
                }
            },
            Err(_) => !release_json_ok(s@),
        },
{
    match serde_json::from_str::<serde_json::Value>(s) {
        Ok(v) => Ok(RawRelease {
            tag: v.get("tag_name").and_then(|x| x.as_str()).map(String::from),
            entries: v.get("assets").and_then(|x| x.as_array()).map(|list| list
                .iter()
                .map(|e| (
                    e.get("name").and_then(|x| x.as_str()).map(String::from),
                    e.get("browser_download_url").and_then(|x| x.as_str()).map(String::from),
                ))
                .collect()),
        }),
        Err(e) => Err(e.to_string()),
    }
}

/// The assets' text, name and address of each.
pub open spec fn assets_pairs(assets: Seq<Asset>) -> Seq<(Seq<char>, Seq<char>)> {
    assets.map_values(|a: Asset| (a.name@, a.url@))
}

/// The entries kept from a feed, in order: those that carry both a name
/// and an address; the rest are skipped.
pub open spec fn kept_entries(es: Seq<(Option<Seq<char>>, Option<Seq<char>>)>) -> Seq<
    (Seq<char>, Seq<char>),
>
    decreases es.len(),
{
    if es.len() == 0 {
        Seq::empty()
    } else {
        let rest = kept_entries(es.drop_first());
        match (es.first().0, es.first().1) {
            (Some(n), Some(u)) => seq![(n, u)] + rest,
            _ => rest,
        }
    }
}

/// Keep the complete entries as assets, in feed order.
fn collect_assets(entries: Vec<(Option<String>, Option<String>)>) -> (r: Vec<Asset>)
    ensures
        assets_pairs(r@) == kept_entries(entries_view(entries@)),
{
    let ghost whole = entries_view(entries@);
    let mut remaining = entries;
    let mut acc: Vec<Asset> = Vec::new();
    proof {
        assert(assets_pairs(acc@) + kept_entries(entries_view(remaining@)) =~= kept_entries(
            whole,
        ));
    }
    while remaining.len() > 0
        invariant
            assets_pairs(acc@) + kept_entries(entries_view(remaining@)) == kept_entries(whole),
        decreases remaining.len(),
    {
        let ghost before = entries_view(remaining@);
        let entry = remaining.remove(0);
        proof {
            assert(entries_view(remaining@) =~= before.drop_first());
            assert(before.first() == (opt_string_view(entry.0), opt_string_view(entry.1)));
        }
        match entry {
            (Some(name), Some(url)) => {
                let ghost pair = (name@, url@);
                acc.push(Asset { name, url });
                proof {
                    assert(assets_pairs(acc@) =~= assets_pairs(acc@.drop_last()) + seq![pair]);
                    assert(kept_entries(before) =~= seq![pair] + kept_entries(
                        before.drop_first(),
                    ));
                    assert(assets_pairs(acc@) + kept_entries(entries_view(remaining@))
                        =~= kept_entries(whole));
                }
            },
            _ => {
                proof {
                    assert(kept_entries(before) == kept_entries(before.drop_first()));
                }
            },
        }
    }
    proof {
        assert(entries_view(remaining@).len() == 0);
        assert(assets_pairs(acc@) =~= assets_pairs(acc@) + kept_entries(
            entries_view(remaining@),
        ));
    }
    acc
}

/// Parse the release feed.  The feed is accepted exactly when it is JSON
/// with a `tag_name` string and an `assets` list; the assets kept are
/// the complete entries, in order, and an entry lacking its name or
/// address is skipped.
pub fn parse_release_output(text: &str) -> (r: Result<Release, DownloadError>)
    ensures
        (r is Ok) <==> (release_json_ok(text@) && release_tag_of(text@) is Some
            && release_has_assets(text@)),
        match r {
            Ok(rel) => {
                &&& Some(rel.tag@) == release_tag_of(text@)
                &&& assets_pairs(rel.assets@) == kept_entries(release_entries_of(text@))
            },
            Err(e) => e matches DownloadError::ParseError(_),
        },
{
    let raw = match release_raw(text) {
        Ok(raw) => raw,
        Err(e) => {
            return Err(DownloadError::ParseError(e));
        },
    };
    let tag = match raw.tag {
        Some(t) => t,
        None => {
            return Err(
                DownloadError::ParseError(String::from_str("the release feed lacks tag_name")),
            );
        },
    };
    let entries = match raw.entries {
        Some(list) => list,
        None => {
            return Err(
                DownloadError::ParseError(
                    String::from_str("the release feed lacks an assets list"),
                ),
            );
        },
    };
    let assets = collect_assets(entries);
    Ok(Release { tag, assets })
}

} // verus!
