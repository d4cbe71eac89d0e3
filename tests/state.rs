use nextui_updater::client::Ratio;
use nextui_updater::firmware::{plan_from_state, UpdateError};
use nextui_updater::github::{Commit, Release, Tag};
use nextui_updater::matcher::resolve;
use nextui_updater::state::{AppState, Progress, Submenu};

fn loaded(installed: &str) -> AppState {
    let releases: Vec<Release> = ["v3", "v2", "v1"]
        .iter()
        .map(|t| Release { tag_name: t.to_string(), assets: vec![], published_at: None })
        .collect();
    let tags: Vec<Tag> = [("v3", "333"), ("v2", "222"), ("v1", "111")]
        .iter()
        .map(|(n, s)| Tag { name: n.to_string(), commit: Commit { sha: s.to_string() } })
        .collect();
    let mut st = AppState::new();
    st.set_current_version(Some(installed.to_string()));
    st.start_operation("Fetching latest NextUI releases...");
    st.apply_resolution(resolve(&releases, &tags, installed).ok().unwrap());
    st
}

#[test]
fn operations_set_and_clear_together() {
    let mut st = AppState::new();
    assert_eq!(st.submenu(), Submenu::NextUI);
    st.start_operation("Working");
    assert_eq!(st.current_operation(), Some("Working".to_string()));
    assert_eq!(st.progress(), Some(Progress::Indeterminate));
    st.start_determinate_operation("Downloading");
    assert_eq!(st.progress(), Some(Progress::Determinate(Ratio { done: 0, total: 1 })));
    st.update_progress(Ratio { done: 3, total: 4 });
    assert_eq!(st.progress(), Some(Progress::Determinate(Ratio { done: 3, total: 4 })));
    st.set_operation_failed("Update failed: x");
    assert_eq!(st.current_operation(), None);
    assert_eq!(st.progress(), None);
    assert_eq!(st.error(), Some("Update failed: x".to_string()));
    st.clear_error();
    assert_eq!(st.error(), None);
    st.set_hint(Some("h".to_string()));
    st.enter_submenu(Submenu::Warning);
    assert_eq!(st.submenu(), Submenu::Warning);
    assert_eq!(st.hint(), None);
}

#[test]
fn resolution_is_applied() {
    let st = loaded("222");
    assert_eq!(st.nextui_release().unwrap().tag_name, "v3");
    assert_eq!(st.nextui_tag().unwrap().name, "v3");
    assert_eq!(st.nextui_releases_and_tags().unwrap().len(), 3);
    assert_eq!(st.nextui_releases_and_tags_index(), Some(1));
    assert_eq!(st.current_operation(), None);
}

#[test]
fn selector_moves_within_bounds() {
    let mut st = loaded("111");
    assert_eq!(st.nextui_releases_and_tags_index(), Some(2));
    assert!(st.is_most_left_index());
    st.select_older();
    assert_eq!(st.nextui_releases_and_tags_index(), Some(2));
    st.select_newer();
    st.select_newer();
    assert_eq!(st.nextui_releases_and_tags_index(), Some(0));
    assert!(st.is_most_right_index());
    st.select_newer();
    assert_eq!(st.nextui_releases_and_tags_index(), Some(0));
}

#[test]
fn release_to_install_follows_selector() {
    let mut st = loaded("111");
    assert_eq!(st.release_to_install().unwrap().tag_name, "v3");
    st.set_release_selection_menu(true);
    assert_eq!(st.release_to_install().unwrap().tag_name, "v1");
    assert!(AppState::new().release_to_install().is_none());
}

#[test]
fn update_offered_unless_installed() {
    let mut st = loaded("333");
    assert!(!st.update_available());
    st.set_nextui_tag(None);
    assert!(st.update_available());
    let mut other = loaded("111");
    assert!(other.update_available());
    other.set_release_selection_menu(true);
    assert!(!other.update_available());
}

#[test]
fn tag_label_arrows() {
    let mut st = loaded("222");
    assert_eq!(st.hint_wrap_nextui_tag("v2"), "NextUI v2");
    st.set_release_selection_menu(true);
    assert_eq!(st.hint_wrap_nextui_tag("v2"), "<<     NextUI v2     >>");
    st.select_newer();
    assert_eq!(st.hint_wrap_nextui_tag("v3"), "<<     NextUI v3");
}

#[test]
fn simple_flags() {
    let mut st = AppState::new();
    assert!(!st.should_quit());
    st.set_should_quit(true);
    assert!(st.should_quit());
    st.set_release_selection_confirmed(true);
    assert!(st.release_selection_confirmed());
    st.set_current_operation(Some("op".to_string()));
    st.set_progress(Some(Progress::Indeterminate));
    st.finish_operation();
    assert_eq!(st.current_operation(), None);
    assert_eq!(st.progress(), None);
    st.set_submenu(Submenu::Warning);
    st.set_error(Some("e".to_string()));
    assert_eq!(st.error(), Some("e".to_string()));
    assert_eq!(st.current_version(), None);
}

#[test]
fn guarded_setters() {
    let mut st = loaded("222");
    st.set_nextui_releases_and_tags_index(Some(2));
    assert_eq!(st.nextui_releases_and_tags_index(), Some(2));
    let pairs = st.nextui_releases_and_tags().unwrap();
    st.set_nextui_releases_and_tags(Some(pairs));
    assert_eq!(st.nextui_releases_and_tags().unwrap().len(), 3);
    st.set_nextui_release(None);
    assert!(st.nextui_release().is_none());
    st.set_nextui_releases_and_tags(None);
    assert!(st.nextui_releases_and_tags().is_none());
    st.set_nextui_releases_and_tags_index(None);
    assert_eq!(st.nextui_releases_and_tags_index(), None);
}

#[test]
fn one_operation_at_a_time() {
    let mut st = AppState::new();
    assert!(st.try_start_operation("first"));
    assert!(!st.try_start_operation("second"));
    assert_eq!(st.current_operation(), Some("first".to_string()));
    st.finish_operation();
    assert!(st.try_start_operation("second"));
}

#[test]
fn no_update_without_newest_release() {
    let mut st = loaded("111");
    st.set_release_selection_menu(true);
    st.set_nextui_release(None);
    assert!(st.release_to_install().is_none());
    assert!(matches!(plan_from_state(&st, false, vec![]), Err(UpdateError::NoRelease)));
}

#[test]
fn empty_pair_list_is_allowed() {
    let mut st = loaded("111");
    st.set_nextui_releases_and_tags(Some(vec![]));
    assert_eq!(st.nextui_releases_and_tags().unwrap().len(), 0);
    st.set_release_selection_menu(true);
    assert!(st.is_most_left_index());
    st.select_older();
    assert_eq!(st.nextui_releases_and_tags_index(), Some(2));
    assert_eq!(st.release_to_install().unwrap().tag_name, "v3");
    assert!(st.update_available());
    st.set_nextui_releases_and_tags_index(Some(7));
    assert_eq!(st.nextui_releases_and_tags_index(), Some(7));
}

#[test]
fn self_update_outcome() {
    let mut st = AppState::new();
    st.start_operation("Fetching latest updater release...");
    st.finish_self_update(Ok(()));
    assert_eq!(st.current_operation(), None);
    assert_eq!(st.error(), None);
    st.start_operation("x");
    st.finish_self_update(Err("offline".to_string()));
    assert_eq!(st.current_operation(), None);
    assert_eq!(st.progress(), None);
    assert_eq!(st.error(), Some("Self-update failed: offline".to_string()));
}
