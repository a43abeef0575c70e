use ytgrab::errors::DownloadError;
use ytgrab::version::classify_install;
use ytgrab::version::conclude_update;
use ytgrab::version::needs_update;
use ytgrab::version::plan_update;
use ytgrab::version::select_asset;
use ytgrab::version::Asset;
use ytgrab::version::Release;
use ytgrab::version::UpdateConclusion;
use ytgrab::version::UpdatePlan;

fn sample_release() -> Release {
    Release {
        tag: "2023.06.01".to_string(),
        assets: vec![
            Asset {
                name: "yt-dlp".to_string(),
                url: "https://example.invalid/yt-dlp".to_string(),
            },
            Asset {
                name: "yt-dlp.exe".to_string(),
                url: "https://example.invalid/yt-dlp.exe".to_string(),
            },
            Asset {
                name: "yt-dlp.exe".to_string(),
                url: "https://example.invalid/duplicate".to_string(),
            },
        ],
    }
}

#[test]
fn same_version_needs_no_update() {
    assert!(!needs_update(&Some("2023.01.01".to_string()), "2023.01.01"));
}

#[test]
fn absent_version_needs_update() {
    assert!(needs_update(&None, "2023.01.01"));
}

#[test]
fn different_version_needs_update() {
    assert!(needs_update(&Some("2023.01.01".to_string()), "2023.06.01"));
}

#[test]
fn asset_found_by_exact_name() {
    let url = select_asset(&sample_release(), "yt-dlp.exe").unwrap();
    assert_eq!(url, "https://example.invalid/yt-dlp.exe");
}

#[test]
fn asset_not_found() {
    assert!(select_asset(&sample_release(), "yt-dlp_macos").is_none());
}

#[test]
fn plan_when_up_to_date() {
    let p = plan_update(&Some("2023.06.01".to_string()), &sample_release(), "yt-dlp.exe");
    assert!(matches!(p, UpdatePlan::UpToDate));
}

#[test]
fn plan_when_stale() {
    let p = plan_update(&Some("2023.01.01".to_string()), &sample_release(), "yt-dlp.exe");
    match p {
        UpdatePlan::Install(url) => assert_eq!(url, "https://example.invalid/yt-dlp.exe"),
        _ => panic!("expected an install plan"),
    }
}

#[test]
fn plan_when_release_lacks_the_asset() {
    let p = plan_update(&None, &sample_release(), "yt-dlp_macos");
    assert!(matches!(p, UpdatePlan::NoAsset));
}

#[test]
fn install_failures_are_distinguishable() {
    assert!(matches!(
        classify_install(false, true, true, Some(10)),
        Err(DownloadError::NetworkError(_))
    ));
    assert!(matches!(
        classify_install(true, false, true, Some(10)),
        Err(DownloadError::IoError(_))
    ));
    assert!(matches!(
        classify_install(true, true, false, Some(10)),
        Err(DownloadError::IoError(_))
    ));
    assert!(matches!(
        classify_install(true, true, true, None),
        Err(DownloadError::VerificationError)
    ));
    assert!(matches!(
        classify_install(true, true, true, Some(0)),
        Err(DownloadError::VerificationError)
    ));
    assert!(classify_install(true, true, true, Some(123456)).is_ok());
}

#[test]
fn update_failure_is_swallowed_with_a_usable_binary() {
    let c = conclude_update(Err(DownloadError::VerificationError), true);
    assert!(matches!(c, UpdateConclusion::StaleButUsable(_)));
}

#[test]
fn update_failure_is_fatal_without_any_binary() {
    let c = conclude_update(
        Err(DownloadError::NetworkError("offline".to_string())),
        false,
    );
    assert!(matches!(c, UpdateConclusion::Fatal(_)));
}

#[test]
fn successful_update_is_ready() {
    assert!(matches!(conclude_update(Ok(()), false), UpdateConclusion::Ready));
}
