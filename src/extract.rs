//! Which archive entries an extraction writes, and where: the entry filters of the
//! quick, full and self updates, the guard that keeps every write under the target
//! root, and the per-entry plan with its progress.

use vstd::prelude::*;
use vstd::string::*;
use crate::archive::ArchiveEntry;
use crate::client::Ratio;
use crate::text::{contains, has_substring, starts_with};

verus! {

/// The folder, under the install root, that holds the per-system ROM folders.
pub const ROMS_PREFIX: &'static str = "Roms/";

/// The system tag that the pattern `\((?<emu>\w+)\)` captures in a path: the word
/// characters inside the first parenthesized group of them.
pub uninterp spec fn emu_tag_of(path: Seq<char>) -> Option<Seq<char>>;

/// Relies on `regex::Regex::new` for the pattern `\((?<emu>\w+)\)` and on
/// `Regex::captures` with the group `emu` for the system tag in a path.
#[verifier::external_body]
fn capture_emu_tag(path: &str) -> (r: Option<String>)
    ensures
        r is None ==> emu_tag_of(path@) is None,
        r matches Some(t) ==> emu_tag_of(path@) == Some(t@),
{
    let re = regex::Regex::new("\\((?<emu>\\w+)\\)").ok()?;
    let caps = re.captures(path)?;
    match caps.name("emu") {
        Some(m) => Some(m.as_str().to_string()),
        None => None,
    }
}

/// Which entries an extraction takes.
pub enum EntryFilter {
    /// Every entry.
    All,
    /// The entries whose path starts with one of these.
    Prefixes(Vec<String>),
    /// Every entry but those under the ROM folder whose system tag is already used by
    /// one of these installed ROM folder names.
    KeepRomFolders(Vec<String>),
}

/// `name` holds the system tag `tag` in parentheses.
pub open spec fn names_system(name: Seq<char>, tag: Seq<char>) -> bool {
    has_substring(name, "("@ + tag + ")"@)
}

/// The entry at `path`, whose system tag (if any) is `tag`, belongs to a system that
/// already has one of the `installed` ROM folders.
pub open spec fn rom_folder_taken(path: Seq<char>, tag: Option<Seq<char>>, installed: Seq<String>) -> bool {
    &&& ROMS_PREFIX@.is_prefix_of(path)
    &&& tag is Some
    &&& exists|i: int| 0 <= i < installed.len() && names_system(#[trigger] installed[i]@, tag->0)
}

/// Whether the filter takes the entry at `path`.
pub open spec fn filter_takes(filter: EntryFilter, path: Seq<char>) -> bool {
    match filter {
        EntryFilter::All => true,
        EntryFilter::Prefixes(ps) => exists|i: int| 0 <= i < ps@.len() && (#[trigger] ps@[i])@.is_prefix_of(path),
        EntryFilter::KeepRomFolders(installed) => !rom_folder_taken(path, emu_tag_of(path), installed@),
    }
}

/// Whether `path`, whose system tag is `tag`, belongs to a system that already has one
/// of the `installed` ROM folders.
pub fn rom_folder_is_taken(path: &str, tag: &Option<String>, installed: &Vec<String>) -> (r: bool)
    ensures
        r == rom_folder_taken(
            path@,
            match tag {
                Some(t) => Some(t@),
                None => None,
            },
            installed@,
        ),
{
    if !starts_with(path, ROMS_PREFIX) {
        return false;
    }
    match tag {
        None => false,
        Some(t) => {
            let mut marker = String::from_str("(");
            marker.append(t.as_str());
            marker.append(")");
            let mut i: usize = 0;
            while i < installed.len()
                invariant
                    marker@ == "("@ + t@ + ")"@,
                    ROMS_PREFIX@.is_prefix_of(path@),
                    *tag == Some(*t),
                    i <= installed@.len(),
                    forall|j: int| 0 <= j < i ==> !names_system(installed@[j]@, t@),
                decreases installed@.len() - i,
            {
                if contains(installed[i].as_str(), marker.as_str()) {
                    assert(names_system(installed@[i as int]@, t@));
                    return true;
                }
                i = i + 1;
            }
            false
        },
    }
}

/// Whether a full update takes the entry at `path`, given the names of the installed
/// ROM folders.
pub fn full_update_takes(path: &str, installed: &Vec<String>) -> (r: bool)
    ensures
        r == !rom_folder_taken(path@, emu_tag_of(path@), installed@),
{
    if !starts_with(path, ROMS_PREFIX) {
        return true;
    }
    let tag = capture_emu_tag(path);
    !rom_folder_is_taken(path, &tag, installed)
}

impl EntryFilter {
    /// The filter of a quick update: the boot bundle and the platform folder.
    pub fn quick_update() -> (r: EntryFilter)
        ensures
            is_quick_filter(r),
    {
        EntryFilter::Prefixes(vec![String::from_str("MinUI.zip"), String::from_str("trimui")])
    }

    /// Whether the filter takes the entry at `path`.
    pub fn takes(&self, path: &str) -> (r: bool)
        ensures
            r == filter_takes(*self, path@),
    {
        match self {
            EntryFilter::All => true,
            EntryFilter::Prefixes(ps) => {
                let mut i: usize = 0;
                while i < ps.len()
                    invariant
                        *self == EntryFilter::Prefixes(*ps),
                        i <= ps@.len(),
                        forall|j: int| 0 <= j < i ==> !ps@[j]@.is_prefix_of(path@),
                    decreases ps@.len() - i,
                {
                    if starts_with(path, ps[i].as_str()) {
                        assert(ps@[i as int]@.is_prefix_of(path@));
                        assert(self->Prefixes_0 == *ps);
                        return true;
                    }
                    i = i + 1;
                }
                false
            },
            EntryFilter::KeepRomFolders(installed) => full_update_takes(path, installed),
        }
    }
}

/// `path[i..i+2]` is a `..` component.
pub open spec fn parent_ref_at(path: Seq<char>, i: int) -> bool {
    &&& 0 <= i && i + 1 < path.len()
    &&& path[i] == '.' && path[i + 1] == '.'
    &&& i == 0 || path[i - 1] == '/'
    &&& i + 2 == path.len() || path[i + 2] == '/'
}

/// A relative path that cannot leave the folder it is taken from: not empty, not
/// absolute, and without a `..` component.
pub open spec fn stays_inside(path: Seq<char>) -> bool {
    &&& path.len() > 0
    &&& path[0] != '/'
    &&& forall|i: int| 0 <= i < path.len() ==> !parent_ref_at(path, i)
}

/// A relative path made of normal components only: not absolute and without a `..`
/// component (it may be empty).
pub open spec fn has_no_traversal(path: Seq<char>) -> bool {
    &&& path.len() == 0 || path[0] != '/'
    &&& forall|i: int| 0 <= i < path.len() ==> !parent_ref_at(path, i)
}

/// Whether `path` stays inside the folder it is taken from.
pub fn is_contained(path: &str) -> (r: bool)
    ensures
        r == stays_inside(path@),
{
    let n = path.unicode_len();
    if n == 0 || path.get_char(0) == '/' {
        return false;
    }
    let mut i: usize = 0;
    while i + 1 < n
        invariant
            n == path@.len(),
            n > 0,
            i < n,
            forall|j: int| 0 <= j < i ==> !parent_ref_at(path@, j),
        decreases n - i,
    {
        if path.get_char(i) == '.' && path.get_char(i + 1) == '.' && (i == 0 || path.get_char(i - 1)
            == '/') && (i + 2 == n || path.get_char(i + 2) == '/') {
            assert(parent_ref_at(path@, i as int));
            return false;
        }
        i = i + 1;
    }
    assert(forall|j: int| i <= j < n ==> !parent_ref_at(path@, j));
    true
}

/// `rel` placed under the folder `root`.
pub open spec fn joined(root: Seq<char>, rel: Seq<char>) -> Seq<char> {
    if root.len() > 0 && root.last() == '/' {
        root + rel
    } else {
        root + "/"@ + rel
    }
}

fn join(root: &str, rel: &str) -> (r: String)
    ensures
        r@ == joined(root@, rel@),
{
    let mut r = String::from_str(root);
    let n = root.unicode_len();
    if !(n > 0 && root.get_char(n - 1) == '/') {
        r.append("/");
    }
    r.append(rel);
    r
}

/// What extraction does with one entry.
pub enum EntryAction {
    /// Nothing: the entry is filtered out, would leave the root, or is neither a
    /// directory nor a file.
    Skip,
    /// Create this directory and its parents.
    CreateDir(String),
    /// Create or truncate this file and write the entry's content to it.
    WriteFile(String),
}

/// One step of an extraction: what to do with the entry, and the progress to report
/// after it.
pub struct ExtractStep {
    pub action: EntryAction,
    pub progress: Ratio,
}

/// What extraction does with `entry` under `root`.
pub open spec fn action_for(entry: ArchiveEntry, root: Seq<char>, filter: EntryFilter, a: EntryAction) -> bool {
    let go = stays_inside(entry.name@) && filter_takes(filter, entry.name@);
    if go && entry.is_dir {
        a matches EntryAction::CreateDir(p) && p@ == joined(root, entry.name@)
    } else if go && entry.is_file {
        a matches EntryAction::WriteFile(p) && p@ == joined(root, entry.name@)
    } else {
        a is Skip
    }
}

/// The progress after entry `i` of `count`: `i / (count - 1)`, or all of it when there
/// is at most one entry.
pub open spec fn progress_after(i: int, count: int) -> Ratio {
    if count <= 1 {
        Ratio { done: 1, total: 1 }
    } else {
        Ratio { done: i as u64, total: (count - 1) as u64 }
    }
}

/// The steps that extract `entries` under `root`, one per entry, in archive order.
pub fn plan_extraction(entries: &Vec<ArchiveEntry>, root: &str, filter: &EntryFilter) -> (r: Vec<
    ExtractStep,
>)
    ensures
        r@.len() == entries@.len(),
        forall|i: int|
            0 <= i < r@.len() ==> action_for(entries@[i], root@, *filter, (#[trigger] r@[i]).action)
                && r@[i].progress == progress_after(i, entries@.len() as int),
{
    let n = entries.len();
    let mut steps: Vec<ExtractStep> = Vec::new();
    let mut i: usize = 0;
    while i < n
        invariant
            n == entries@.len(),
            i <= n,
            steps@.len() == i,
            forall|j: int|
                0 <= j < i ==> action_for(entries@[j], root@, *filter, (#[trigger] steps@[j]).action)
                    && steps@[j].progress == progress_after(j, n as int),
        decreases n - i,
    {
        let e = &entries[i];
        let name = e.name.as_str();
        let go = is_contained(name) && filter.takes(name);
        let action = if go && e.is_dir {
            EntryAction::CreateDir(join(root, name))
        } else if go && e.is_file {
            EntryAction::WriteFile(join(root, name))
        } else {
            EntryAction::Skip
        };
        let progress = if n <= 1 {
            Ratio { done: 1, total: 1 }
        } else {
            Ratio { done: i as u64, total: (n - 1) as u64 }
        };
        steps.push(ExtractStep { action, progress });
        i = i + 1;
    }
    steps
}

/// Extraction writes only under its root: every directory or file it touches is the
/// root followed by a relative path that is not empty, not absolute and has no `..`
/// component.
pub proof fn lemma_writes_stay_under_root(
    entry: ArchiveEntry,
    root: Seq<char>,
    filter: EntryFilter,
    a: EntryAction,
)
    requires
        action_for(entry, root, filter, a),
    ensures
        a matches EntryAction::CreateDir(p) ==> root.is_prefix_of(p@) && stays_inside(entry.name@)
            && p@ == joined(root, entry.name@),
        a matches EntryAction::WriteFile(p) ==> root.is_prefix_of(p@) && stays_inside(entry.name@)
            && p@ == joined(root, entry.name@),
{
    let rel = entry.name@;
    assert(joined(root, rel).subrange(0, root.len() as int) =~= root);
}

/// The filter of a quick update.
pub open spec fn is_quick_filter(filter: EntryFilter) -> bool {
    filter matches EntryFilter::Prefixes(ps) && ps@.len() == 2 && ps@[0]@ == "MinUI.zip"@
        && ps@[1]@ == "trimui"@
}

/// A quick update extracts an entry whose name is made of normal components (as zip
/// gives it) exactly when the entry is a directory or a file and its path starts with
/// `MinUI.zip` or `trimui`.
pub proof fn lemma_quick_update_takes_allow_list(
    entry: ArchiveEntry,
    root: Seq<char>,
    filter: EntryFilter,
    a: EntryAction,
)
    requires
        is_quick_filter(filter),
        has_no_traversal(entry.name@),
        action_for(entry, root, filter, a),
    ensures
        !(a is Skip) <==> ((entry.is_dir || entry.is_file) && ("MinUI.zip"@.is_prefix_of(
            entry.name@,
        ) || "trimui"@.is_prefix_of(entry.name@))),
{
    reveal_strlit("MinUI.zip");
    reveal_strlit("trimui");
    let ps = filter->Prefixes_0;
    let name = entry.name@;
    if "MinUI.zip"@.is_prefix_of(name) || "trimui"@.is_prefix_of(name) {
        assert(name.len() > 0);
        assert(stays_inside(name));
        if "MinUI.zip"@.is_prefix_of(name) {
            assert(ps@[0]@.is_prefix_of(name));
        } else {
            assert(ps@[1]@.is_prefix_of(name));
        }
        assert(filter_takes(filter, name));
    } else {
        assert forall|i: int| 0 <= i < ps@.len() implies !(#[trigger] ps@[i])@.is_prefix_of(name) by {
            assert(i == 0 || i == 1);
        }
        assert(!filter_takes(filter, name));
    }
}

} // verus!
