//! The self-update protocol as a state machine: check the version, download, move
//! the running executable aside, extract, then restart or put the executable back.
//! The caller performs each action and hands back what came of it.

use vstd::prelude::*;
use crate::client::FetchError;
use crate::github::Release;
use crate::version::{is_newer, semver_parse, update_needed};

verus! {

/// Why a self-update ended without restarting.
#[derive(Debug)]
pub enum SelfUpdateError {
    /// The latest release could not be fetched.
    Fetch(FetchError),
    /// This string is not a semantic version.
    VersionParse(String),
    /// The release has nothing to download.
    NoAsset,
    /// The download failed (the transport's message).
    Download(String),
    /// The running executable could not be moved aside; nothing was extracted.
    Backup(String),
    /// Extraction failed (its message); the executable has been put back.
    Extract(String),
    /// Extraction failed and the executable could not be put back (the message of the
    /// failed move): the updater may no longer be runnable.
    RollbackFailed(String),
}

/// Where a self-update stands.
#[derive(Debug)]
pub enum SelfUpdateState {
    /// Waiting for the latest release.
    CheckingVersion,
    /// Waiting for the download of its first asset.
    Downloading,
    /// Waiting for the running executable to be moved aside.
    BackingUp,
    /// Waiting for the archive to be extracted over the install root.
    Extracting,
    /// Waiting for the executable to be moved back after this extraction error.
    RollingBack(String),
    /// Done: nothing is left to do.
    Finished,
}

/// What came of the last action.
#[derive(Debug)]
pub enum SelfUpdateEvent {
    ReleaseFetched(Result<Release, FetchError>),
    Downloaded(Result<(), String>),
    BackedUp(Result<(), String>),
    Extracted(Result<(), String>),
    RolledBack(Result<(), String>),
}

/// What the caller does next.
#[derive(Debug)]
pub enum SelfUpdateAction {
    /// Download from this address.
    Download(String),
    /// Move the running executable to its backup path.
    Backup,
    /// Extract the download over the install root, taking every entry.
    Extract,
    /// Move the backup back to the executable's path.
    Rollback,
    /// Report success and exit with the "restart required" code.
    Restart,
    /// Stop: `Ok` when no newer version is available, else the error.
    Finish(Result<(), SelfUpdateError>),
    /// Nothing: the event does not belong to this state.
    Wait,
}

/// One step of the protocol: from `s`, on `e`, with the installed version
/// `installed`, the machine goes to `n` and asks for `a`.
pub open spec fn self_update_step(
    s: SelfUpdateState,
    e: SelfUpdateEvent,
    installed: Seq<char>,
    n: SelfUpdateState,
    a: SelfUpdateAction,
) -> bool {
    match s {
        SelfUpdateState::CheckingVersion => match e {
            SelfUpdateEvent::ReleaseFetched(Err(f)) => n is Finished && a == SelfUpdateAction::Finish(
                Err(SelfUpdateError::Fetch(f)),
            ),
            SelfUpdateEvent::ReleaseFetched(Ok(rel)) => {
                let avail = semver_parse(rel.tag_name@);
                let inst = semver_parse(installed);
                if avail is None {
                    n is Finished && (a matches SelfUpdateAction::Finish(
                        Err(SelfUpdateError::VersionParse(t)),
                    ) && t@ == rel.tag_name@)
                } else if inst is None {
                    n is Finished && (a matches SelfUpdateAction::Finish(
                        Err(SelfUpdateError::VersionParse(t)),
                    ) && t@ == installed)
                } else if !is_newer(avail->0, inst->0) {
                    n is Finished && a == SelfUpdateAction::Finish(Ok(()))
                } else if rel.assets@.len() == 0 {
                    n is Finished && a == SelfUpdateAction::Finish(Err(SelfUpdateError::NoAsset))
                } else {
                    n is Downloading && a == SelfUpdateAction::Download(rel.assets@[0].url)
                }
            },
            _ => n == s && a is Wait,
        },
        SelfUpdateState::Downloading => match e {
            SelfUpdateEvent::Downloaded(Err(m)) => n is Finished && a == SelfUpdateAction::Finish(
                Err(SelfUpdateError::Download(m)),
            ),
            SelfUpdateEvent::Downloaded(Ok(())) => n is BackingUp && a is Backup,
            _ => n == s && a is Wait,
        },
        SelfUpdateState::BackingUp => match e {
            SelfUpdateEvent::BackedUp(Err(m)) => n is Finished && a == SelfUpdateAction::Finish(
                Err(SelfUpdateError::Backup(m)),
            ),
            SelfUpdateEvent::BackedUp(Ok(())) => n is Extracting && a is Extract,
            _ => n == s && a is Wait,
        },
        SelfUpdateState::Extracting => match e {
            SelfUpdateEvent::Extracted(Err(m)) => n == SelfUpdateState::RollingBack(m) && a is Rollback,
            SelfUpdateEvent::Extracted(Ok(())) => n is Finished && a is Restart,
            _ => n == s && a is Wait,
        },
        SelfUpdateState::RollingBack(m) => match e {
            SelfUpdateEvent::RolledBack(Ok(())) => n is Finished && a == SelfUpdateAction::Finish(
                Err(SelfUpdateError::Extract(m)),
            ),
            SelfUpdateEvent::RolledBack(Err(m2)) => n is Finished && a == SelfUpdateAction::Finish(
                Err(SelfUpdateError::RollbackFailed(m2)),
            ),
            _ => n == s && a is Wait,
        },
        SelfUpdateState::Finished => n == s && a is Wait,
    }
}

impl SelfUpdateState {
    /// A self-update begins by fetching the latest release.
    pub fn start() -> (r: SelfUpdateState)
        ensures
            r is CheckingVersion,
    {
        SelfUpdateState::CheckingVersion
    }

    /// The next state and action, after `event`, for the installed version `installed`.
    pub fn advance(self, event: SelfUpdateEvent, installed: &str) -> (r: (
        SelfUpdateState,
        SelfUpdateAction,
    ))
        ensures
            self_update_step(self, event, installed@, r.0, r.1),
    {
        match self {
            SelfUpdateState::CheckingVersion => match event {
                SelfUpdateEvent::ReleaseFetched(Err(f)) => (
                    SelfUpdateState::Finished,
                    SelfUpdateAction::Finish(Err(SelfUpdateError::Fetch(f))),
                ),
                SelfUpdateEvent::ReleaseFetched(Ok(rel)) => {
                    match update_needed(rel.tag_name.as_str(), installed) {
                        Err(e) => (
                            SelfUpdateState::Finished,
                            SelfUpdateAction::Finish(Err(SelfUpdateError::VersionParse(e.text))),
                        ),
                        Ok(false) => (SelfUpdateState::Finished, SelfUpdateAction::Finish(Ok(()))),
                        Ok(true) => if rel.assets.len() == 0 {
                            (
                                SelfUpdateState::Finished,
                                SelfUpdateAction::Finish(Err(SelfUpdateError::NoAsset)),
                            )
                        } else {
                            (
                                SelfUpdateState::Downloading,
                                SelfUpdateAction::Download(rel.assets[0].url.clone()),
                            )
                        },
                    }
                },
                _ => (SelfUpdateState::CheckingVersion, SelfUpdateAction::Wait),
            },
            SelfUpdateState::Downloading => match event {
                SelfUpdateEvent::Downloaded(Err(m)) => (
                    SelfUpdateState::Finished,
                    SelfUpdateAction::Finish(Err(SelfUpdateError::Download(m))),
                ),
                SelfUpdateEvent::Downloaded(Ok(())) => (
                    SelfUpdateState::BackingUp,
                    SelfUpdateAction::Backup,
                ),
                _ => (SelfUpdateState::Downloading, SelfUpdateAction::Wait),
            },
            SelfUpdateState::BackingUp => match event {
                SelfUpdateEvent::BackedUp(Err(m)) => (
                    SelfUpdateState::Finished,
                    SelfUpdateAction::Finish(Err(SelfUpdateError::Backup(m))),
                ),
                SelfUpdateEvent::BackedUp(Ok(())) => (
                    SelfUpdateState::Extracting,
                    SelfUpdateAction::Extract,
                ),
                _ => (SelfUpdateState::BackingUp, SelfUpdateAction::Wait),
            },
            SelfUpdateState::Extracting => match event {
                SelfUpdateEvent::Extracted(Err(m)) => (
                    SelfUpdateState::RollingBack(m),
                    SelfUpdateAction::Rollback,
                ),
                SelfUpdateEvent::Extracted(Ok(())) => (
                    SelfUpdateState::Finished,
                    SelfUpdateAction::Restart,
                ),
                _ => (SelfUpdateState::Extracting, SelfUpdateAction::Wait),
            },
            SelfUpdateState::RollingBack(m) => match event {
                SelfUpdateEvent::RolledBack(Ok(())) => (
                    SelfUpdateState::Finished,
                    SelfUpdateAction::Finish(Err(SelfUpdateError::Extract(m))),
                ),
                SelfUpdateEvent::RolledBack(Err(m2)) => (
                    SelfUpdateState::Finished,
                    SelfUpdateAction::Finish(Err(SelfUpdateError::RollbackFailed(m2))),
                ),
                _ => (SelfUpdateState::RollingBack(m), SelfUpdateAction::Wait),
            },
            SelfUpdateState::Finished => (SelfUpdateState::Finished, SelfUpdateAction::Wait),
        }
    }
}

/// A failed extraction is always followed by putting the executable back: the machine
/// asks for the rollback and ends nowhere else, and it reports an extraction error
/// only once the executable has been moved back.
pub proof fn lemma_rollback_precedes_extract_error(
    s: SelfUpdateState,
    e: SelfUpdateEvent,
    installed: Seq<char>,
    n: SelfUpdateState,
    a: SelfUpdateAction,
)
    requires
        self_update_step(s, e, installed, n, a),
    ensures
        s is Extracting ==> (e matches SelfUpdateEvent::Extracted(Err(m)) ==> (a is Rollback && n
            == SelfUpdateState::RollingBack(m))),
        a matches SelfUpdateAction::Finish(Err(SelfUpdateError::Extract(m))) ==> (s
            == SelfUpdateState::RollingBack(m) && e matches SelfUpdateEvent::RolledBack(Ok(_))),
        s is Extracting ==> !(a is Finish),
{
}

/// No extraction is asked for unless the executable was moved aside first.
pub proof fn lemma_extract_only_after_backup(
    s: SelfUpdateState,
    e: SelfUpdateEvent,
    installed: Seq<char>,
    n: SelfUpdateState,
    a: SelfUpdateAction,
)
    requires
        self_update_step(s, e, installed, n, a),
    ensures
        a is Extract ==> (s is BackingUp && e matches SelfUpdateEvent::BackedUp(Ok(_))),
{
}

} // verus!
