use nextui_updater::client::{
    fetch_latest_release, fetch_tag, fetch_tags, latest_release_url, releases_url, tags_url,
    DownloadProgress, FetchError, Ratio, Reply,
};
use nextui_updater::device::{font_preference, installed_version};
use nextui_updater::firmware::{
    plan_update, select_asset, start_failure, FirmwareAction, FirmwareEvent, FirmwareStep, UpdateError,
};
use nextui_updater::extract::EntryFilter;
use nextui_updater::github::{extract_date_from_release, Asset, Commit, Release, Tag};
use nextui_updater::selfupdate::{SelfUpdateAction, SelfUpdateError, SelfUpdateEvent, SelfUpdateState};
use nextui_updater::text::{contains, starts_with};
use nextui_updater::version::{parse_version, update_needed};

fn asset(name: &str) -> Asset {
    Asset { name: name.to_string(), url: format!("https://host/{name}") }
}

fn release(tag: &str, assets: Vec<Asset>) -> Release {
    Release { tag_name: tag.to_string(), assets, published_at: None }
}

#[test]
fn version_gate() {
    assert!(matches!(update_needed("2.0.1", "2.0.0"), Ok(true)));
    assert!(matches!(update_needed("2.0.0", "2.0.0"), Ok(false)));
    assert!(matches!(update_needed("1.9.9", "2.0.0"), Ok(false)));
    assert!(matches!(update_needed("2.1.0", "2.0.9"), Ok(true)));
    assert!(matches!(update_needed("2.0.0", "2.0.0-rc.1"), Ok(true)));
    assert!(matches!(update_needed("2.0.0-rc.1", "2.0.0-rc.2"), Ok(false)));
    match update_needed("v2", "2.0.0") {
        Err(e) => assert_eq!(e.text, "v2"),
        _ => panic!("expected a parse error"),
    }
    match update_needed("2.0.0", "x") {
        Err(e) => assert_eq!(e.text, "x"),
        _ => panic!("expected a parse error"),
    }
}

#[test]
fn parse_version_parts() {
    let v = parse_version("1.2.3-beta.1+build5").ok().unwrap();
    assert_eq!((v.major, v.minor, v.patch), (1, 2, 3));
    assert_eq!(v.pre, "beta.1");
    assert_eq!(v.build, "build5");
}

#[test]
fn self_update_proceeds_to_download_when_newer() {
    let rel = release("2.0.1", vec![asset("updater.zip")]);
    let (s, a) = SelfUpdateState::start().advance(SelfUpdateEvent::ReleaseFetched(Ok(rel)), "2.0.0");
    assert!(matches!(s, SelfUpdateState::Downloading));
    assert!(matches!(a, SelfUpdateAction::Download(u) if u == "https://host/updater.zip"));
}

#[test]
fn self_update_stops_when_not_newer() {
    for tag in ["2.0.0", "1.0.0"] {
        let rel = release(tag, vec![asset("updater.zip")]);
        let (s, a) = SelfUpdateState::start().advance(SelfUpdateEvent::ReleaseFetched(Ok(rel)), "2.0.0");
        assert!(matches!(s, SelfUpdateState::Finished));
        assert!(matches!(a, SelfUpdateAction::Finish(Ok(()))));
    }
}

#[test]
fn self_update_rolls_back_after_failed_extraction() {
    let (s, a) = SelfUpdateState::Extracting.advance(SelfUpdateEvent::Extracted(Err("bad zip".to_string())), "1.0.0");
    assert!(matches!(a, SelfUpdateAction::Rollback));
    let (s, a) = s.advance(SelfUpdateEvent::RolledBack(Ok(())), "1.0.0");
    assert!(matches!(s, SelfUpdateState::Finished));
    assert!(matches!(a, SelfUpdateAction::Finish(Err(SelfUpdateError::Extract(m))) if m == "bad zip"));
}

#[test]
fn self_update_failed_rollback_is_fatal() {
    let s = SelfUpdateState::RollingBack("bad zip".to_string());
    let (_, a) = s.advance(SelfUpdateEvent::RolledBack(Err("gone".to_string())), "1.0.0");
    assert!(matches!(a, SelfUpdateAction::Finish(Err(SelfUpdateError::RollbackFailed(m))) if m == "gone"));
}

#[test]
fn self_update_full_sequence() {
    let (s, a) = SelfUpdateState::Downloading.advance(SelfUpdateEvent::Downloaded(Ok(())), "1.0.0");
    assert!(matches!(a, SelfUpdateAction::Backup));
    let (s, a) = s.advance(SelfUpdateEvent::BackedUp(Ok(())), "1.0.0");
    assert!(matches!(a, SelfUpdateAction::Extract));
    let (_, a) = s.advance(SelfUpdateEvent::Extracted(Ok(())), "1.0.0");
    assert!(matches!(a, SelfUpdateAction::Restart));
    let (_, a) = SelfUpdateState::BackingUp.advance(SelfUpdateEvent::BackedUp(Err("ro".to_string())), "1.0.0");
    assert!(matches!(a, SelfUpdateAction::Finish(Err(SelfUpdateError::Backup(_)))));
    let (_, a) = SelfUpdateState::Downloading.advance(SelfUpdateEvent::BackedUp(Ok(())), "1.0.0");
    assert!(matches!(a, SelfUpdateAction::Wait));
    let rel = release("3.0.0", vec![]);
    let (_, a) = SelfUpdateState::start().advance(SelfUpdateEvent::ReleaseFetched(Ok(rel)), "2.0.0");
    assert!(matches!(a, SelfUpdateAction::Finish(Err(SelfUpdateError::NoAsset))));
}

#[test]
fn download_reports_full_progress_at_content_length() {
    let mut d = DownloadProgress::new(Some(10));
    assert_eq!(d.on_chunk(&[0u8; 4]), Some(Ratio { done: 4, total: 10 }));
    assert_eq!(d.on_chunk(&[1u8; 6]), Some(Ratio { done: 10, total: 10 }));
    assert_eq!(d.finish().len(), 10);
}

#[test]
fn download_without_length_reports_nothing() {
    let mut d = DownloadProgress::new(None);
    assert_eq!(d.on_chunk(&[0u8; 4]), None);
    assert_eq!(d.on_chunk(&[7u8; 2]), None);
    assert_eq!(d.finish(), vec![0, 0, 0, 0, 7, 7]);
    let mut z = DownloadProgress::new(Some(0));
    assert_eq!(z.on_chunk(&[0u8; 3]), None);
}

#[test]
fn reply_outcomes() {
    let ok: Result<Reply<Release>, String> = Ok(Reply { status: 200, body: Ok(release("v1", vec![])) });
    assert!(matches!(fetch_latest_release(ok), Ok(r) if r.tag_name == "v1"));
    let refused: Result<Reply<Release>, String> = Ok(Reply { status: 404, body: Err("x".to_string()) });
    assert!(matches!(fetch_latest_release(refused), Err(FetchError::Api(404))));
    let bad: Result<Reply<Release>, String> = Ok(Reply { status: 200, body: Err("eof".to_string()) });
    assert!(matches!(fetch_latest_release(bad), Err(FetchError::Decode(m)) if m == "eof"));
    let down: Result<Reply<Release>, String> = Err("refused".to_string());
    assert!(matches!(fetch_latest_release(down), Err(FetchError::Transport(m)) if m == "refused"));
    let empty: Result<Reply<Vec<Tag>>, String> = Ok(Reply { status: 200, body: Ok(vec![]) });
    assert!(matches!(fetch_tags(empty), Ok(v) if v.is_empty()));
}

#[test]
fn fetch_tag_finds_first_of_name() {
    let tags = vec![
        Tag { name: "v1".to_string(), commit: Commit { sha: "a".to_string() } },
        Tag { name: "v2".to_string(), commit: Commit { sha: "b".to_string() } },
        Tag { name: "v2".to_string(), commit: Commit { sha: "c".to_string() } },
    ];
    let r = fetch_tag(Ok(Reply { status: 200, body: Ok(tags.clone()) }), "v2");
    assert!(matches!(r, Ok(t) if t.commit.sha == "b"));
    let r = fetch_tag(Ok(Reply { status: 200, body: Ok(tags) }), "v3");
    assert!(matches!(r, Err(FetchError::TagNotFound(n)) if n == "v3"));
}

#[test]
fn request_addresses() {
    assert_eq!(latest_release_url("a/b"), "https://api.github.com/repos/a/b/releases/latest");
    assert_eq!(releases_url("a/b"), "https://api.github.com/repos/a/b/releases");
    assert_eq!(tags_url("a/b"), "https://api.github.com/repos/a/b/tags");
}

#[test]
fn asset_selection() {
    let assets = vec![asset("NextUI-base.zip"), asset("NextUI-all.zip"), asset("NextUI-extras.zip")];
    assert_eq!(select_asset(&assets, true).ok().unwrap().name, "NextUI-all.zip");
    assert_eq!(select_asset(&assets, false).ok().unwrap().name, "NextUI-base.zip");
    let other = vec![asset("first.zip"), asset("second.zip")];
    assert_eq!(select_asset(&other, true).ok().unwrap().name, "first.zip");
    assert!(matches!(select_asset(&vec![], false), Err(UpdateError::NoAsset)));
}

#[test]
fn update_plans() {
    let rel = release("v1", vec![asset("NextUI-base.zip"), asset("NextUI-all.zip")]);
    let p = plan_update(&rel, true, vec!["GBA (GBA)".to_string()]).ok().unwrap();
    assert_eq!(p.asset.name, "NextUI-all.zip");
    assert!(matches!(p.filter, EntryFilter::KeepRomFolders(v) if v.len() == 1));
    let q = plan_update(&rel, false, vec![]).ok().unwrap();
    assert_eq!(q.asset.name, "NextUI-base.zip");
    assert!(q.filter.takes("MinUI.zip") && q.filter.takes("trimui/x") && !q.filter.takes("Roms/a"));
}

#[test]
fn firmware_failure_rechecks() {
    let (s, a) = FirmwareStep::Downloading.advance(FirmwareEvent::Downloaded(Ok(())));
    assert_eq!(s, FirmwareStep::Extracting);
    assert!(matches!(a, FirmwareAction::Extract));
    let (s, a) = s.advance(FirmwareEvent::Extracted(Err("disk full".to_string())));
    assert_eq!(s, FirmwareStep::Finished);
    assert!(matches!(a, FirmwareAction::FailAndRecheck(m) if m == "Update failed: disk full"));
    let (s, a) = FirmwareStep::Rebooting.advance(FirmwareEvent::Rebooted(Ok(())));
    assert_eq!(s, FirmwareStep::Finished);
    assert!(matches!(a, FirmwareAction::Done));
    assert!(matches!(start_failure(UpdateError::NoAsset), FirmwareAction::FailAndRecheck(m) if m == "Update failed: No assets found"));
}

#[test]
fn release_date_line() {
    let mut r = release("v1", vec![]);
    assert_eq!(extract_date_from_release(r.clone()), "");
    r.published_at = Some("2025-03-01T10:00:00Z".to_string());
    assert_eq!(extract_date_from_release(r.clone()), "\nReleased: 2025-03-01");
    r.published_at = Some("2025-03-01".to_string());
    assert_eq!(extract_date_from_release(r), "\nReleased: 2025-03-01");
}

#[test]
fn version_marker_second_line() {
    assert_eq!(installed_version("NextUI\n  abc1234 \nmore"), Some("abc1234".to_string()));
    assert_eq!(installed_version("NextUI\r\nabc1234\r\n"), Some("abc1234".to_string()));
    assert_eq!(installed_version("NextUI"), None);
    assert_eq!(installed_version("NextUI\n   \n"), None);
    assert_eq!(installed_version(""), None);
}

#[test]
fn font_setting() {
    assert_eq!(font_preference("a=1\nfont=1\n"), 1);
    assert_eq!(font_preference("font=0\n"), 0);
}

#[test]
fn text_helpers() {
    assert!(starts_with("abcdef", "abc"));
    assert!(!starts_with("ab", "abc"));
    assert!(starts_with("abc", ""));
    assert!(contains("NextUI-all.zip", "all"));
    assert!(!contains("NextUI-base.zip", "all"));
    assert!(contains("x", ""));
}

#[test]
fn trim_matches_std() {
    for s in ["  abc  ", "\u{3000}x y\u{85}\t", "", " \n\r ", "a", "\u{200b}a\u{200b}", "\u{a0}é\u{2029}"] {
        assert_eq!(nextui_updater::device::trim(s), s.trim(), "{s:?}");
    }
}
