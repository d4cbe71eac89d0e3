//! Choices of the firmware update: which release and which of its assets to install.

use vstd::prelude::*;
use vstd::string::*;
use crate::extract::{is_quick_filter, EntryFilter};
use crate::github::{Asset, Release};
use crate::state::{offered_release, AppState};
use crate::text::{contains, has_substring};

verus! {

/// The word in the name of the asset that a full (`true`) or quick update takes.
pub open spec fn asset_key(full: bool) -> Seq<char> {
    if full {
        "all"@
    } else {
        "base"@
    }
}

/// Why a firmware update could not start.
#[derive(Debug, Clone, Copy, PartialEq, Eq, Structural)]
pub enum UpdateError {
    /// No release has been fetched.
    NoRelease,
    /// The release has no assets.
    NoAsset,
}

impl UpdateError {
    /// The text shown to the user for this error.
    pub fn message(&self) -> (r: String)
        ensures
            *self == UpdateError::NoRelease ==> r@ == "No release found"@,
            *self == UpdateError::NoAsset ==> r@ == "No assets found"@,
    {
        match self {
            UpdateError::NoRelease => String::from_str("No release found"),
            UpdateError::NoAsset => String::from_str("No assets found"),
        }
    }
}

/// `k` is the asset a full (`true`) or quick update installs: the first whose name
/// holds the mode's word, or else the first asset.
pub open spec fn is_chosen_asset(assets: Seq<Asset>, full: bool, k: int) -> bool {
    &&& 0 <= k < assets.len()
    &&& if exists|i: int| 0 <= i < assets.len() && has_substring(
        (#[trigger] assets[i]).name@,
        asset_key(full),
    ) {
        has_substring(assets[k].name@, asset_key(full)) && forall|i: int|
            0 <= i < k ==> !has_substring((#[trigger] assets[i]).name@, asset_key(full))
    } else {
        k == 0
    }
}

/// The asset a full (`full == true`) or quick update installs.
pub fn select_asset(assets: &Vec<Asset>, full: bool) -> (r: Result<Asset, UpdateError>)
    ensures
        assets@.len() == 0 ==> r == Err::<Asset, UpdateError>(UpdateError::NoAsset),
        assets@.len() > 0 ==> exists|k: int|
            is_chosen_asset(assets@, full, k) && r == Ok::<Asset, UpdateError>(assets@[k]),
{
    if assets.len() == 0 {
        return Err(UpdateError::NoAsset);
    }
    let key = if full {
        "all"
    } else {
        "base"
    };
    proof {
        reveal_strlit("all");
        reveal_strlit("base");
    }
    assert(key@ == asset_key(full));
    let mut i: usize = 0;
    while i < assets.len()
        invariant
            key@ == asset_key(full),
            assets@.len() > 0,
            i <= assets@.len(),
            forall|j: int| 0 <= j < i ==> !has_substring((#[trigger] assets@[j]).name@, key@),
        decreases assets@.len() - i,
    {
        if contains(assets[i].name.as_str(), key) {
            assert(is_chosen_asset(assets@, full, i as int));
            return Ok(assets[i].clone());
        }
        i = i + 1;
    }
    assert(is_chosen_asset(assets@, full, 0));
    Ok(assets[0].clone())
}

/// What a firmware update installs and how.
pub struct FirmwarePlan {
    /// The asset to download.
    pub asset: Asset,
    /// The entries to take from it.
    pub filter: EntryFilter,
}

/// `p` installs the asset a full (`full == true`) or quick update takes from
/// `assets`, with the entry filter of that mode.
pub open spec fn is_plan_for(p: FirmwarePlan, assets: Seq<Asset>, full: bool, installed_rom_folders: Vec<String>) -> bool {
    &&& exists|k: int| is_chosen_asset(assets, full, k) && p.asset == assets[k]
    &&& if full {
        p.filter == EntryFilter::KeepRomFolders(installed_rom_folders)
    } else {
        is_quick_filter(p.filter)
    }
}

/// The plan of a full (`full == true`) or quick update of `release`; a full update
/// keeps the systems of the `installed_rom_folders`.
pub fn plan_update(release: &Release, full: bool, installed_rom_folders: Vec<String>) -> (r: Result<
    FirmwarePlan,
    UpdateError,
>)
    ensures
        release.assets@.len() == 0 ==> r == Err::<FirmwarePlan, UpdateError>(UpdateError::NoAsset),
        release.assets@.len() > 0 ==> (r matches Ok(p) && is_plan_for(
            p,
            release.assets@,
            full,
            installed_rom_folders,
        )),
{
    match select_asset(&release.assets, full) {
        Err(e) => Err(e),
        Ok(asset) => {
            let filter = if full {
                EntryFilter::KeepRomFolders(installed_rom_folders)
            } else {
                EntryFilter::quick_update()
            };
            Ok(FirmwarePlan { asset, filter })
        },
    }
}

/// Plans the update of the release the state offers (see
/// [`AppState::release_to_install`]).
pub fn plan_from_state(state: &AppState, full: bool, installed_rom_folders: Vec<String>) -> (r: Result<
    FirmwarePlan,
    UpdateError,
>)
    requires
        state.wf(),
    ensures
        offered_release(state@) is None ==> r == Err::<FirmwarePlan, UpdateError>(
            UpdateError::NoRelease,
        ),
        offered_release(state@) matches Some(rel) ==> (if rel.assets.len() == 0 {
            r == Err::<FirmwarePlan, UpdateError>(UpdateError::NoAsset)
        } else {
            r matches Ok(p) && is_plan_for(p, rel.assets, full, installed_rom_folders)
        }),
{
    match state.release_to_install() {
        None => Err(UpdateError::NoRelease),
        Some(release) => plan_update(&release, full, installed_rom_folders),
    }
}

/// Where a firmware update stands once its plan is made.
#[derive(Debug, Clone, Copy, PartialEq, Eq, Structural)]
pub enum FirmwareStep {
    Downloading,
    Extracting,
    Rebooting,
    Finished,
}

/// What came of the last action.
#[derive(Debug)]
pub enum FirmwareEvent {
    Downloaded(Result<(), String>),
    Extracted(Result<(), String>),
    Rebooted(Result<(), String>),
}

/// What the caller does next.
#[derive(Debug)]
pub enum FirmwareAction {
    /// Extract the download with the plan's filter.
    Extract,
    /// Report the update complete, pause, and run the reboot command.
    Reboot,
    /// Nothing is left to do.
    Done,
    /// Report this error, then check the releases again.
    FailAndRecheck(String),
    /// Nothing: the event does not belong to this step.
    Wait,
}

/// The error text shown for a failed update step.
pub open spec fn failure_text(m: Seq<char>) -> Seq<char> {
    "Update failed: "@ + m
}

/// One step of a firmware update: any failure ends it with a report and a new check
/// of the releases; success moves on from download to extraction to reboot.
pub open spec fn firmware_step(s: FirmwareStep, e: FirmwareEvent, n: FirmwareStep, a: FirmwareAction) -> bool {
    match (s, e) {
        (FirmwareStep::Downloading, FirmwareEvent::Downloaded(Ok(_))) => n == FirmwareStep::Extracting
            && a is Extract,
        (FirmwareStep::Extracting, FirmwareEvent::Extracted(Ok(_))) => n == FirmwareStep::Rebooting
            && a is Reboot,
        (FirmwareStep::Rebooting, FirmwareEvent::Rebooted(Ok(_))) => n == FirmwareStep::Finished
            && a is Done,
        (FirmwareStep::Downloading, FirmwareEvent::Downloaded(Err(m))) => n == FirmwareStep::Finished
            && (a matches FirmwareAction::FailAndRecheck(t) && t@ == failure_text(m@)),
        (FirmwareStep::Extracting, FirmwareEvent::Extracted(Err(m))) => n == FirmwareStep::Finished
            && (a matches FirmwareAction::FailAndRecheck(t) && t@ == failure_text(m@)),
        (FirmwareStep::Rebooting, FirmwareEvent::Rebooted(Err(m))) => n == FirmwareStep::Finished
            && (a matches FirmwareAction::FailAndRecheck(t) && t@ == failure_text(m@)),
        _ => n == s && a is Wait,
    }
}

fn failed(m: &str) -> (r: FirmwareAction)
    ensures
        r matches FirmwareAction::FailAndRecheck(t) && t@ == failure_text(m@),
{
    let mut t = String::from_str("Update failed: ");
    t.append(m);
    FirmwareAction::FailAndRecheck(t)
}

impl FirmwareStep {
    /// The next step and action after `event`.
    pub fn advance(self, event: FirmwareEvent) -> (r: (FirmwareStep, FirmwareAction))
        ensures
            firmware_step(self, event, r.0, r.1),
    {
        match (self, event) {
            (FirmwareStep::Downloading, FirmwareEvent::Downloaded(Ok(_))) => (
                FirmwareStep::Extracting,
                FirmwareAction::Extract,
            ),
            (FirmwareStep::Extracting, FirmwareEvent::Extracted(Ok(_))) => (
                FirmwareStep::Rebooting,
                FirmwareAction::Reboot,
            ),
            (FirmwareStep::Rebooting, FirmwareEvent::Rebooted(Ok(_))) => (
                FirmwareStep::Finished,
                FirmwareAction::Done,
            ),
            (FirmwareStep::Downloading, FirmwareEvent::Downloaded(Err(m))) => (
                FirmwareStep::Finished,
                failed(m.as_str()),
            ),
            (FirmwareStep::Extracting, FirmwareEvent::Extracted(Err(m))) => (
                FirmwareStep::Finished,
                failed(m.as_str()),
            ),
            (FirmwareStep::Rebooting, FirmwareEvent::Rebooted(Err(m))) => (
                FirmwareStep::Finished,
                failed(m.as_str()),
            ),
            (s, _) => (s, FirmwareAction::Wait),
        }
    }
}

/// The text shown when an update cannot start, followed by a new check of the releases.
pub fn start_failure(e: UpdateError) -> (r: FirmwareAction)
    ensures
        e == UpdateError::NoRelease ==> (r matches FirmwareAction::FailAndRecheck(t) && t@
            == failure_text("No release found"@)),
        e == UpdateError::NoAsset ==> (r matches FirmwareAction::FailAndRecheck(t) && t@
            == failure_text("No assets found"@)),
{
    let m = e.message();
    failed(m.as_str())
}

/// A failed step never goes on: it ends the update and asks for a report and a new
/// release check.
pub proof fn lemma_failure_rechecks(s: FirmwareStep, e: FirmwareEvent, n: FirmwareStep, a: FirmwareAction)
    requires
        firmware_step(s, e, n, a),
        s != FirmwareStep::Finished,
        e matches FirmwareEvent::Downloaded(Err(_)) || e matches FirmwareEvent::Extracted(Err(_))
            || e matches FirmwareEvent::Rebooted(Err(_)),
        s == FirmwareStep::Downloading <==> e is Downloaded,
        s == FirmwareStep::Extracting <==> e is Extracted,
        s == FirmwareStep::Rebooting <==> e is Rebooted,
    ensures
        n == FirmwareStep::Finished,
        a is FailAndRecheck,
{
}

} // verus!
