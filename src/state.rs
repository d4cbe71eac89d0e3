//! The shared operation state: the fetched releases, the release selector, the
//! operation in flight with its progress, the error and hint shown to the user.

use vstd::prelude::*;
use vstd::string::*;
use crate::client::Ratio;
use crate::github::{Release, ReleaseAndTag, ReleaseView, Tag};
use crate::matcher::{pairs_view, Resolution};
use crate::text::starts_with;

verus! {

/// How far the operation in flight has come.
#[derive(Clone, Copy, Debug, PartialEq, Eq, Structural)]
pub enum Progress {
    /// Of unknown length.
    Indeterminate,
    /// This share of it is done.
    Determinate(Ratio),
}

/// The screen the presentation shell shows.
#[derive(Clone, Copy, Debug, PartialEq, Eq, Structural)]
pub enum Submenu {
    /// The update options.
    NextUI,
    /// The warning shown before another version can be chosen.
    Warning,
}

/// The state, as values.
pub struct AppStateView {
    pub submenu: Submenu,
    pub current_version: Option<Seq<char>>,
    pub release: Option<ReleaseView>,
    pub tag: Option<Tag>,
    pub pairs: Option<Seq<(ReleaseView, Tag)>>,
    pub index: Option<usize>,
    pub selection_menu: bool,
    pub selection_confirmed: bool,
    pub operation: Option<Seq<char>>,
    pub progress: Option<Progress>,
    pub error: Option<Seq<char>>,
    pub hint: Option<Seq<char>>,
    pub should_quit: bool,
}

pub open spec fn opt_view(s: Option<String>) -> Option<Seq<char>> {
    match s {
        Some(v) => Some(v@),
        None => None,
    }
}

fn copy_text(s: &Option<String>) -> (r: Option<String>)
    ensures
        opt_view(r) == opt_view(*s),
{
    match s {
        Some(v) => Some(v.clone()),
        None => None,
    }
}

fn owned(s: &str) -> (r: Option<String>)
    ensures
        opt_view(r) == Some(s@),
{
    Some(String::from_str(s))
}

/// Everything the background worker and the presentation shell share.
pub struct AppState {
    submenu: Submenu,
    current_version: Option<String>,
    nextui_release: Option<Release>,
    nextui_tag: Option<Tag>,
    nextui_releases_and_tags: Option<Vec<ReleaseAndTag>>,
    nextui_releases_and_tags_index: Option<usize>,
    release_selection_menu: bool,
    release_selection_confirmed: bool,
    current_operation: Option<String>,
    progress: Option<Progress>,
    error: Option<String>,
    hint: Option<String>,
    should_quit: bool,
}

impl View for AppState {
    type V = AppStateView;

    closed spec fn view(&self) -> AppStateView {
        AppStateView {
            submenu: self.submenu,
            current_version: opt_view(self.current_version),
            release: match self.nextui_release {
                Some(r) => Some(r@),
                None => None,
            },
            tag: self.nextui_tag,
            pairs: match self.nextui_releases_and_tags {
                Some(v) => Some(pairs_view(v@)),
                None => None,
            },
            index: self.nextui_releases_and_tags_index,
            selection_menu: self.release_selection_menu,
            selection_confirmed: self.release_selection_confirmed,
            operation: opt_view(self.current_operation),
            progress: self.progress,
            error: opt_view(self.error),
            hint: opt_view(self.hint),
            should_quit: self.should_quit,
        }
    }
}

/// The release on offer: none without a newest release; else the selected one while
/// the selector is open on a list, else the newest.
pub open spec fn offered_release(v: AppStateView) -> Option<ReleaseView> {
    if v.release is None {
        None
    } else if has_selection(v) {
        Some(v.pairs->0[selected_index(v)].0)
    } else {
        v.release
    }
}

/// The selector's position: its index, or 0 when none is set.
pub open spec fn selected_index(v: AppStateView) -> int {
    match v.index {
        Some(i) => i as int,
        None => 0,
    }
}

/// The selector is open on a non-empty list of pairs.
pub open spec fn has_selection(v: AppStateView) -> bool {
    v.selection_menu && v.pairs is Some && v.pairs->0.len() > 0
}

/// The selector cannot move to an older pair.
pub open spec fn at_oldest(v: AppStateView) -> bool {
    v.pairs is None || selected_index(v) + 1 >= v.pairs->0.len()
}

/// The selector cannot move to a newer pair.
pub open spec fn at_newest(v: AppStateView) -> bool {
    selected_index(v) == 0
}

/// The selector's index points into the list of pairs whenever that list is not empty.
pub open spec fn selection_ok(v: AppStateView) -> bool {
    v.pairs matches Some(ps) ==> (ps.len() > 0 ==> v.index is Some && v.index->0 < ps.len())
}

impl AppState {
    /// The state's invariant.
    pub open spec fn wf(&self) -> bool {
        selection_ok(self@)
    }

    /// The state at start-up: nothing fetched, nothing in flight, the update options shown.
    pub fn new() -> (r: AppState)
        ensures
            r.wf(),
            r@ == (AppStateView {
                submenu: Submenu::NextUI,
                current_version: None,
                release: None,
                tag: None,
                pairs: None,
                index: None,
                selection_menu: false,
                selection_confirmed: false,
                operation: None,
                progress: None,
                error: None,
                hint: None,
                should_quit: false,
            }),
    {
        AppState {
            submenu: Submenu::NextUI,
            current_version: None,
            nextui_release: None,
            nextui_tag: None,
            nextui_releases_and_tags: None,
            nextui_releases_and_tags_index: None,
            release_selection_menu: false,
            release_selection_confirmed: false,
            current_operation: None,
            progress: None,
            error: None,
            hint: None,
            should_quit: false,
        }
    }

    pub fn submenu(&self) -> (r: Submenu)
        ensures
            r == self@.submenu,
    {
        self.submenu
    }

    pub fn should_quit(&self) -> (r: bool)
        ensures
            r == self@.should_quit,
    {
        self.should_quit
    }

    pub fn current_operation(&self) -> (r: Option<String>)
        ensures
            opt_view(r) == self@.operation,
    {
        copy_text(&self.current_operation)
    }

    pub fn progress(&self) -> (r: Option<Progress>)
        ensures
            r == self@.progress,
    {
        self.progress
    }

    pub fn error(&self) -> (r: Option<String>)
        ensures
            opt_view(r) == self@.error,
    {
        copy_text(&self.error)
    }

    pub fn hint(&self) -> (r: Option<String>)
        ensures
            opt_view(r) == self@.hint,
    {
        copy_text(&self.hint)
    }

    pub fn current_version(&self) -> (r: Option<String>)
        ensures
            opt_view(r) == self@.current_version,
    {
        copy_text(&self.current_version)
    }

    pub fn nextui_release(&self) -> (r: Option<Release>)
        ensures
            r matches Some(v) ==> self@.release == Some(v@),
            r is None ==> self@.release is None,
    {
        match &self.nextui_release {
            Some(v) => Some(v.clone()),
            None => None,
        }
    }

    pub fn nextui_tag(&self) -> (r: Option<Tag>)
        ensures
            r == self@.tag,
    {
        match &self.nextui_tag {
            Some(v) => Some(v.clone()),
            None => None,
        }
    }

    pub fn nextui_releases_and_tags(&self) -> (r: Option<Vec<ReleaseAndTag>>)
        ensures
            r matches Some(v) ==> self@.pairs == Some(pairs_view(v@)),
            r is None ==> self@.pairs is None,
    {
        match &self.nextui_releases_and_tags {
            None => None,
            Some(v) => {
                let mut out: Vec<ReleaseAndTag> = Vec::new();
                let mut i: usize = 0;
                while i < v.len()
                    invariant
                        i <= v@.len(),
                        pairs_view(out@) =~= pairs_view(v@).take(i as int),
                    decreases v@.len() - i,
                {
                    let ghost before = out@;
                    out.push(v[i].clone());
                    assert(pairs_view(out@) =~= pairs_view(before).push(pairs_view(v@)[i as int]));
                    assert(pairs_view(v@).take(i + 1) =~= pairs_view(v@).take(i as int).push(
                        pairs_view(v@)[i as int],
                    ));
                    i = i + 1;
                }
                assert(pairs_view(v@).take(v@.len() as int) =~= pairs_view(v@));
                Some(out)
            },
        }
    }

    pub fn nextui_releases_and_tags_index(&self) -> (r: Option<usize>)
        ensures
            r == self@.index,
    {
        self.nextui_releases_and_tags_index
    }

    pub fn release_selection_menu(&self) -> (r: bool)
        ensures
            r == self@.selection_menu,
    {
        self.release_selection_menu
    }

    pub fn release_selection_confirmed(&self) -> (r: bool)
        ensures
            r == self@.selection_confirmed,
    {
        self.release_selection_confirmed
    }

    pub fn set_submenu(&mut self, submenu: Submenu)
        requires
            old(self).wf(),
        ensures
            final(self).wf(),
            final(self)@ == (AppStateView { submenu, ..old(self)@ }),
    {
        self.submenu = submenu;
    }

    pub fn set_should_quit(&mut self, should_quit: bool)
        requires
            old(self).wf(),
        ensures
            final(self).wf(),
            final(self)@ == (AppStateView { should_quit, ..old(self)@ }),
    {
        self.should_quit = should_quit;
    }

    pub fn set_current_operation(&mut self, operation: Option<String>)
        requires
            old(self).wf(),
        ensures
            final(self).wf(),
            final(self)@ == (AppStateView { operation: opt_view(operation), ..old(self)@ }),
    {
        self.current_operation = operation;
    }

    pub fn set_progress(&mut self, progress: Option<Progress>)
        requires
            old(self).wf(),
        ensures
            final(self).wf(),
            final(self)@ == (AppStateView { progress, ..old(self)@ }),
    {
        self.progress = progress;
    }

    pub fn set_error(&mut self, error: Option<String>)
        requires
            old(self).wf(),
        ensures
            final(self).wf(),
            final(self)@ == (AppStateView { error: opt_view(error), ..old(self)@ }),
    {
        self.error = error;
    }

    pub fn set_hint(&mut self, hint: Option<String>)
        requires
            old(self).wf(),
        ensures
            final(self).wf(),
            final(self)@ == (AppStateView { hint: opt_view(hint), ..old(self)@ }),
    {
        self.hint = hint;
    }

    pub fn set_current_version(&mut self, version: Option<String>)
        requires
            old(self).wf(),
        ensures
            final(self).wf(),
            final(self)@ == (AppStateView { current_version: opt_view(version), ..old(self)@ }),
    {
        self.current_version = version;
    }

    /// Replaces the newest release on offer.
    pub fn set_nextui_release(&mut self, release: Option<Release>)
        requires
            old(self).wf(),
        ensures
            final(self).wf(),
            final(self)@ == (AppStateView {
                release: match release {
                    Some(r) => Some(r@),
                    None => None,
                },
                ..old(self)@
            }),
    {
        self.nextui_release = release;
    }

    /// Replaces the list of pairs; a non-empty list must hold the pair the selector
    /// points at.
    pub fn set_nextui_releases_and_tags(&mut self, releases_and_tags: Option<Vec<ReleaseAndTag>>)
        requires
            old(self).wf(),
            releases_and_tags matches Some(v) ==> (v@.len() > 0 ==> old(self)@.index is Some
                && old(self)@.index->0 < v@.len()),
        ensures
            final(self).wf(),
            final(self)@ == (AppStateView {
                pairs: match releases_and_tags {
                    Some(v) => Some(pairs_view(v@)),
                    None => None,
                },
                ..old(self)@
            }),
    {
        self.nextui_releases_and_tags = releases_and_tags;
    }

    /// Points the selector elsewhere; while there is a non-empty list, within it.
    pub fn set_nextui_releases_and_tags_index(&mut self, index: Option<usize>)
        requires
            old(self).wf(),
            old(self)@.pairs matches Some(ps) ==> (ps.len() > 0 ==> index is Some && index->0
                < ps.len()),
        ensures
            final(self).wf(),
            final(self)@ == (AppStateView { index, ..old(self)@ }),
    {
        self.nextui_releases_and_tags_index = index;
    }

    /// Forgets (`None`) or replaces the tag of the newest release.
    pub fn set_nextui_tag(&mut self, tag: Option<Tag>)
        requires
            old(self).wf(),
        ensures
            final(self).wf(),
            final(self)@ == (AppStateView { tag, ..old(self)@ }),
    {
        self.nextui_tag = tag;
    }

    pub fn set_release_selection_menu(&mut self, open: bool)
        requires
            old(self).wf(),
        ensures
            final(self).wf(),
            final(self)@ == (AppStateView { selection_menu: open, ..old(self)@ }),
    {
        self.release_selection_menu = open;
    }

    pub fn set_release_selection_confirmed(&mut self, confirmed: bool)
        requires
            old(self).wf(),
        ensures
            final(self).wf(),
            final(self)@ == (AppStateView { selection_confirmed: confirmed, ..old(self)@ }),
    {
        self.release_selection_confirmed = confirmed;
    }

    /// Starts an operation of unknown length.
    pub fn start_operation(&mut self, operation: &str)
        requires
            old(self).wf(),
        ensures
            final(self).wf(),
            final(self)@ == (AppStateView {
                operation: Some(operation@),
                progress: Some(Progress::Indeterminate),
                ..old(self)@
            }),
    {
        self.current_operation = owned(operation);
        self.progress = Some(Progress::Indeterminate);
    }

    /// Starts an operation of unknown length only if none is in flight; tells whether
    /// it did.
    pub fn try_start_operation(&mut self, operation: &str) -> (r: bool)
        requires
            old(self).wf(),
        ensures
            final(self).wf(),
            r == (old(self)@.operation is None),
            r ==> final(self)@ == (AppStateView {
                operation: Some(operation@),
                progress: Some(Progress::Indeterminate),
                ..old(self)@
            }),
            !r ==> final(self)@ == old(self)@,
    {
        if self.current_operation.is_some() {
            return false;
        }
        self.start_operation(operation);
        true
    }

    /// Starts an operation whose progress is reported, at nothing done yet.
    pub fn start_determinate_operation(&mut self, operation: &str)
        requires
            old(self).wf(),
        ensures
            final(self).wf(),
            final(self)@ == (AppStateView {
                operation: Some(operation@),
                progress: Some(Progress::Determinate(Ratio { done: 0, total: 1 })),
                ..old(self)@
            }),
    {
        self.current_operation = owned(operation);
        self.progress = Some(Progress::Determinate(Ratio { done: 0, total: 1 }));
    }

    pub fn update_progress(&mut self, progress: Ratio)
        requires
            old(self).wf(),
        ensures
            final(self).wf(),
            final(self)@ == (AppStateView {
                progress: Some(Progress::Determinate(progress)),
                ..old(self)@
            }),
    {
        self.progress = Some(Progress::Determinate(progress));
    }

    /// Ends the operation in flight.
    pub fn finish_operation(&mut self)
        requires
            old(self).wf(),
        ensures
            final(self).wf(),
            final(self)@ == (AppStateView { operation: None, progress: None, ..old(self)@ }),
    {
        self.current_operation = None;
        self.progress = None;
    }

    /// Ends the operation in flight with an error for the user.
    pub fn set_operation_failed(&mut self, error_msg: &str)
        requires
            old(self).wf(),
        ensures
            final(self).wf(),
            final(self)@ == (AppStateView {
                operation: None,
                progress: None,
                error: Some(error_msg@),
                ..old(self)@
            }),
    {
        self.current_operation = None;
        self.error = owned(error_msg);
        self.progress = None;
    }

    pub fn clear_error(&mut self)
        requires
            old(self).wf(),
        ensures
            final(self).wf(),
            final(self)@ == (AppStateView { error: None, ..old(self)@ }),
    {
        self.error = None;
    }

    /// Shows `submenu`, with no hint.
    pub fn enter_submenu(&mut self, submenu: Submenu)
        requires
            old(self).wf(),
        ensures
            final(self).wf(),
            final(self)@ == (AppStateView { submenu, hint: None, ..old(self)@ }),
    {
        self.submenu = submenu;
        self.hint = None;
    }

    /// Ends the self-update step: `Ok` (no update was needed) ends the operation, an
    /// error ends it with `Self-update failed: ` and the error's text.
    pub fn finish_self_update(&mut self, outcome: Result<(), String>)
        requires
            old(self).wf(),
        ensures
            final(self).wf(),
            outcome is Ok ==> final(self)@ == (AppStateView {
                operation: None,
                progress: None,
                ..old(self)@
            }),
            outcome matches Err(m) ==> final(self)@ == (AppStateView {
                operation: None,
                progress: None,
                error: Some("Self-update failed: "@ + m@),
                ..old(self)@
            }),
    {
        match outcome {
            Ok(()) => self.finish_operation(),
            Err(m) => {
                let mut text = String::from_str("Self-update failed: ");
                text.append(m.as_str());
                self.set_operation_failed(text.as_str());
            },
        }
    }

    /// Keeps the outcome of a release check: the newest pair becomes the release and
    /// tag on offer, the selector starts at the resolved index, and the operation ends.
    pub fn apply_resolution(&mut self, resolution: Resolution)
        requires
            old(self).wf(),
            resolution.pairs@.len() > 0,
            resolution.selected < resolution.pairs@.len(),
        ensures
            final(self).wf(),
            final(self)@ == (AppStateView {
                release: Some(resolution.pairs@[0].release@),
                tag: Some(resolution.pairs@[0].tag),
                pairs: Some(pairs_view(resolution.pairs@)),
                index: Some(resolution.selected),
                operation: None,
                progress: None,
                ..old(self)@
            }),
    {
        self.nextui_release = Some(resolution.pairs[0].release.clone());
        self.nextui_tag = Some(resolution.pairs[0].tag.clone());
        self.nextui_releases_and_tags = Some(resolution.pairs);
        self.nextui_releases_and_tags_index = Some(resolution.selected);
        self.current_operation = None;
        self.progress = None;
    }

    /// The selector shows the oldest pair (or there is nothing to select).
    pub fn is_most_left_index(&self) -> (r: bool)
        requires
            self.wf(),
        ensures
            r == at_oldest(self@),
    {
        match &self.nextui_releases_and_tags {
            None => true,
            Some(v) => {
                let index = match self.nextui_releases_and_tags_index {
                    Some(i) => i,
                    None => 0,
                };
                assert(pairs_view(v@).len() == v@.len());
                index >= v.len() || v.len() - index <= 1
            },
        }
    }

    /// The selector shows the newest pair.
    pub fn is_most_right_index(&self) -> (r: bool)
        requires
            self.wf(),
        ensures
            r == at_newest(self@),
    {
        match self.nextui_releases_and_tags_index {
            Some(i) => i == 0,
            None => true,
        }
    }

    /// Moves the selector one pair towards older releases, unless it shows the oldest.
    pub fn select_older(&mut self)
        requires
            old(self).wf(),
        ensures
            final(self).wf(),
            if at_oldest(old(self)@) {
                final(self)@ == old(self)@
            } else {
                final(self)@ == (AppStateView {
                    index: Some((selected_index(old(self)@) + 1) as usize),
                    ..old(self)@
                })
            },
    {
        if !self.is_most_left_index() {
            let i = match self.nextui_releases_and_tags_index {
                Some(i) => i,
                None => 0,
            };
            let n = match &self.nextui_releases_and_tags {
                Some(v) => v.len(),
                None => 0,
            };
            assert(pairs_view(self.nextui_releases_and_tags->0@).len() == n);
            self.nextui_releases_and_tags_index = Some(i + 1);
        }
    }

    /// Moves the selector one pair towards newer releases, unless it shows the newest.
    pub fn select_newer(&mut self)
        requires
            old(self).wf(),
        ensures
            final(self).wf(),
            if at_newest(old(self)@) {
                final(self)@ == old(self)@
            } else {
                final(self)@ == (AppStateView {
                    index: Some((selected_index(old(self)@) - 1) as usize),
                    ..old(self)@
                })
            },
    {
        match self.nextui_releases_and_tags_index {
            Some(i) => if i > 0 {
                self.nextui_releases_and_tags_index = Some(i - 1);
            },
            None => {},
        }
    }

    /// The release a firmware update installs: none without a newest release; else the
    /// selected one while the selector is open on a list, else the newest.
    pub fn release_to_install(&self) -> (r: Option<Release>)
        requires
            self.wf(),
        ensures
            match r {
                Some(v) => offered_release(self@) == Some(v@),
                None => offered_release(self@) is None,
            },
    {
        if self.nextui_release.is_none() {
            return None;
        }
        if self.release_selection_menu {
            match &self.nextui_releases_and_tags {
                Some(v) => if v.len() > 0 {
                    let i = match self.nextui_releases_and_tags_index {
                        Some(i) => i,
                        None => 0,
                    };
                    assert(pairs_view(v@).len() == v@.len());
                    return Some(v[i].release.clone());
                },
                None => {},
            }
        }
        self.nextui_release()
    }

    /// Whether an update is offered: not when the tag on display (the selected one
    /// while the selector is open) is the installed version, unless that tag was
    /// set aside with "update anyway".
    pub fn update_available(&self) -> (r: bool)
        requires
            self.wf(),
        ensures
            r == !(self@.current_version is Some && self@.tag is Some && self@.release is Some
                && self@.current_version->0.is_prefix_of(
                (if has_selection(self@) {
                    self@.pairs->0[selected_index(self@)].1
                } else {
                    self@.tag->0
                }).commit.sha@,
            )),
    {
        match (&self.current_version, &self.nextui_tag, &self.nextui_release) {
            (Some(current), Some(newest), Some(_)) => {
                let shown = if self.release_selection_menu {
                    match &self.nextui_releases_and_tags {
                        Some(v) => if v.len() > 0 {
                            let i = match self.nextui_releases_and_tags_index {
                                Some(i) => i,
                                None => 0,
                            };
                            assert(pairs_view(v@).len() == v@.len());
                            &v[i].tag
                        } else {
                            newest
                        },
                        None => newest,
                    }
                } else {
                    newest
                };
                !starts_with(shown.commit.sha.as_str(), current.as_str())
            },
            _ => true,
        }
    }

    /// The label of a tag on screen; while the selector is open, arrows show in which
    /// directions there are more releases.
    pub fn hint_wrap_nextui_tag(&self, tag_name: &str) -> (r: String)
        requires
            self.wf(),
        ensures
            r@ == (if !self@.selection_menu {
                "NextUI "@ + tag_name@
            } else {
                (if at_oldest(self@) {
                    Seq::<char>::empty()
                } else {
                    "<<     "@
                }) + "NextUI "@ + tag_name@ + (if at_newest(self@) {
                    Seq::<char>::empty()
                } else {
                    "     >>"@
                })
            }),
    {
        let mut r = String::new();
        if self.release_selection_menu && !self.is_most_left_index() {
            r.append("<<     ");
        }
        r.append("NextUI ");
        r.append(tag_name);
        if self.release_selection_menu && !self.is_most_right_index() {
            r.append("     >>");
        }
        proof {
            if !self@.selection_menu {
                assert(r@ =~= "NextUI "@ + tag_name@);
            } else {
                assert(r@ =~= (if at_oldest(self@) {
                    Seq::<char>::empty()
                } else {
                    "<<     "@
                }) + "NextUI "@ + tag_name@ + (if at_newest(self@) {
                    Seq::<char>::empty()
                } else {
                    "     >>"@
                }));
            }
        }
        r
    }
}

} // verus!
