//! Installing and uninstalling an addon, step by step.
//!
//! The manager decides; its caller acts. Each operation is a small machine:
//! the caller hands it the outcome of what it was last asked to do, and is
//! told what to do next. A failure of any step ends the operation with that
//! failure, and the ledger is only ever written after the step before it
//! succeeded.

use crate::clock::now_rfc3339;
use crate::error::{ManagerError, ManagerErrorView};
use crate::extract::{
    action_views, expected_prefix, plan_extraction, planned, prefix_of_repo, ExtractAction,
    ExtractActionView, Planned,
};
use crate::fetch::{
    check_response, failed_download_text, fetch_request, request_of, success, transport_error,
    FetchRequest, FetchRequestView, HttpResponse, HttpResponseView,
};
use crate::ledger::{
    count, lemma_reinstall_supersedes, lemma_remove_leaves_others, lemma_removed_id_is_absent,
    load_installed, loaded, replaced, without, InstalledAddons,
};
use crate::model::{Addon, AddonView, InstalledAddon, InstalledAddonView};
use crate::resolver::Platform;
use vstd::prelude::*;

verus! {

/// The view of the outcome of resolving the install root.
pub open spec fn root_view(root: Result<String, ManagerError>) -> Result<
    Seq<char>,
    ManagerErrorView,
> {
    match root {
        Ok(path) => Ok(path@),
        Err(failure) => Err(failure@),
    }
}

/// The view of the outcome of work on disk: done, or what went wrong.
pub open spec fn outcome_view(outcome: Result<(), String>) -> Result<(), Seq<char>> {
    match outcome {
        Ok(_) => Ok(()),
        Err(detail) => Err(detail@),
    }
}

/// The view of how an operation ended.
pub open spec fn end_view(end: Result<(), ManagerError>) -> Result<(), ManagerErrorView> {
    match end {
        Ok(_) => Ok(()),
        Err(failure) => Err(failure@),
    }
}

/// How far an install has come.
#[derive(Debug, Clone)]
pub enum InstallState {
    /// Nothing was asked yet.
    Start,
    /// The install root is being resolved.
    AwaitingRoot,
    /// The archive is being downloaded, to be installed under `root`.
    AwaitingArchive { root: String },
    /// The addon's directory is being rewritten.
    AwaitingFiles,
    /// The ledger is being read.
    AwaitingLedger,
    /// The ledger is being written.
    AwaitingSave,
    /// The install has ended.
    Finished,
}

/// What an [`InstallState`] is in contracts.
pub enum InstallStateView {
    Start,
    AwaitingRoot,
    AwaitingArchive { root: Seq<char> },
    AwaitingFiles,
    AwaitingLedger,
    AwaitingSave,
    Finished,
}

impl View for InstallState {
    type V = InstallStateView;

    open spec fn view(&self) -> InstallStateView {
        match self {
            InstallState::Start => InstallStateView::Start,
            InstallState::AwaitingRoot => InstallStateView::AwaitingRoot,
            InstallState::AwaitingArchive { root } => InstallStateView::AwaitingArchive { root: root@ },
            InstallState::AwaitingFiles => InstallStateView::AwaitingFiles,
            InstallState::AwaitingLedger => InstallStateView::AwaitingLedger,
            InstallState::AwaitingSave => InstallStateView::AwaitingSave,
            InstallState::Finished => InstallStateView::Finished,
        }
    }
}

/// What the caller reports to an install.
#[derive(Debug)]
pub enum InstallEvent {
    /// The install is to begin.
    Begin,
    /// The install root was resolved, or could not be.
    RootResolved(Result<String, ManagerError>),
    /// The download was answered, or failed on the way with the given detail.
    Downloaded(Result<HttpResponse, String>),
    /// The addon's directory was rewritten, or the work on disk failed.
    FilesWritten(Result<(), String>),
    /// The ledger file was read; `None` where it is missing or malformed.
    LedgerLoaded(Option<InstalledAddons>),
    /// The ledger file was written, or could not be.
    LedgerSaved(Result<(), String>),
}

/// What an [`InstallEvent`] is in contracts.
pub enum InstallEventView {
    Begin,
    RootResolved(Result<Seq<char>, ManagerErrorView>),
    Downloaded(Result<HttpResponseView, Seq<char>>),
    FilesWritten(Result<(), Seq<char>>),
    LedgerLoaded(Seq<InstalledAddonView>),
    LedgerSaved(Result<(), Seq<char>>),
}

impl View for InstallEvent {
    type V = InstallEventView;

    open spec fn view(&self) -> InstallEventView {
        match self {
            InstallEvent::Begin => InstallEventView::Begin,
            InstallEvent::RootResolved(root) => InstallEventView::RootResolved(root_view(*root)),
            InstallEvent::Downloaded(answer) => InstallEventView::Downloaded(
                match answer {
                    Ok(response) => Ok(response@),
                    Err(detail) => Err(detail@),
                },
            ),
            InstallEvent::FilesWritten(outcome) => InstallEventView::FilesWritten(
                outcome_view(*outcome),
            ),
            InstallEvent::LedgerLoaded(decoded) => InstallEventView::LedgerLoaded(loaded(*decoded)),
            InstallEvent::LedgerSaved(outcome) => InstallEventView::LedgerSaved(
                outcome_view(*outcome),
            ),
        }
    }
}

/// What an install asks of its caller.
#[derive(Debug)]
pub enum InstallAction {
    /// Resolve the install root and report `RootResolved`.
    ResolveRoot,
    /// Make the download and report `Downloaded`.
    Download(FetchRequest),
    /// Recreate the directory `dir_name` under `root` from scratch, removing
    /// what is there, then make the changes of `actions` in their order, and
    /// report `FilesWritten`.
    Extract { root: String, dir_name: String, actions: Vec<ExtractAction> },
    /// Read the ledger file and report `LedgerLoaded`.
    LoadLedger,
    /// Write the ledger file with this content and report `LedgerSaved`.
    SaveLedger(InstalledAddons),
    /// The operation has ended in this way; nothing is left to do.
    Finish(Result<(), ManagerError>),
    /// The event did not answer what was asked, and changed nothing.
    Ignore,
}

/// What an [`InstallAction`] is in contracts.
pub enum InstallActionView {
    ResolveRoot,
    Download(FetchRequestView),
    Extract { root: Seq<char>, dir_name: Seq<char>, actions: Seq<ExtractActionView> },
    LoadLedger,
    SaveLedger(Seq<InstalledAddonView>),
    Finish(Result<(), ManagerErrorView>),
    Ignore,
}

impl View for InstallAction {
    type V = InstallActionView;

    open spec fn view(&self) -> InstallActionView {
        match self {
            InstallAction::ResolveRoot => InstallActionView::ResolveRoot,
            InstallAction::Download(request) => InstallActionView::Download(request@),
            InstallAction::Extract { root, dir_name, actions } => InstallActionView::Extract {
                root: root@,
                dir_name: dir_name@,
                actions: action_views(actions@),
            },
            InstallAction::LoadLedger => InstallActionView::LoadLedger,
            InstallAction::SaveLedger(ledger) => InstallActionView::SaveLedger(ledger@),
            InstallAction::Finish(end) => InstallActionView::Finish(end_view(*end)),
            InstallAction::Ignore => InstallActionView::Ignore,
        }
    }
}

/// The record of an install of `addon` at the time `installed_at`.
pub open spec fn record_of(addon: AddonView, installed_at: Seq<char>) -> InstalledAddonView {
    InstalledAddonView { id: addon.id, version: addon.version, installed_at }
}

/// The least length of the time of an install as it is written down: a date
/// and a time to the second, and the offset from UTC.
pub open spec fn least_stamp_len() -> nat {
    25
}

/// What a download of the archive of `addon`, to be installed under `root`
/// on `platform`, leads to.
pub open spec fn after_download(
    addon: AddonView,
    platform: Platform,
    root: Seq<char>,
    answer: Result<HttpResponseView, Seq<char>>,
    next: InstallStateView,
    action: InstallActionView,
) -> bool {
    match answer {
        Err(detail) => next is Finished && action == InstallActionView::Finish(
            Err(ManagerErrorView::Fetch { status: None, message: detail }),
        ),
        Ok(response) => if !success(response.status) {
            next is Finished && action == InstallActionView::Finish(
                Err(
                    ManagerErrorView::Fetch {
                        status: Some(response.status),
                        message: failed_download_text(response.status_text),
                    },
                ),
            )
        } else {
            match planned(platform, response.body, prefix_of_repo(addon.repo)) {
                Planned::Actions(actions) => next is AwaitingFiles && action
                    == (InstallActionView::Extract { root, dir_name: addon.id, actions }),
                Planned::BadArchive(text) => next is Finished && action
                    == InstallActionView::Finish(
                    Err(ManagerErrorView::Archive { message: text }),
                ),
                Planned::BadEntry(text) => next is Finished && action == InstallActionView::Finish(
                    Err(ManagerErrorView::Extraction { message: text }),
                ),
            }
        },
    }
}

/// The steps of an install of `addon` on `platform`: from `state`, on
/// `event`, the install goes to `next` and asks for `action`.
///
/// The install resolves the root, downloads the archive, has the addon's
/// directory rewritten from the archive's entries under the expected prefix,
/// and then records the addon in the ledger in place of any earlier record
/// of it. The first failure ends it, so the ledger is written only after the
/// files were. An event that does not answer what was asked changes nothing.
pub open spec fn install_step(
    addon: AddonView,
    platform: Platform,
    state: InstallStateView,
    event: InstallEventView,
    next: InstallStateView,
    action: InstallActionView,
) -> bool {
    match (state, event) {
        (InstallStateView::Start, InstallEventView::Begin) => next is AwaitingRoot && action
            is ResolveRoot,
        (InstallStateView::AwaitingRoot, InstallEventView::RootResolved(Ok(root))) => next
            == (InstallStateView::AwaitingArchive { root }) && action
            == InstallActionView::Download(request_of(addon.repo)),
        (InstallStateView::AwaitingRoot, InstallEventView::RootResolved(Err(failure))) => next
            is Finished && action == InstallActionView::Finish(Err(failure)),
        (
            InstallStateView::AwaitingArchive { root },
            InstallEventView::Downloaded(answer),
        ) => after_download(addon, platform, root, answer, next, action),
        (InstallStateView::AwaitingFiles, InstallEventView::FilesWritten(Ok(_))) => next
            is AwaitingLedger && action is LoadLedger,
        (InstallStateView::AwaitingFiles, InstallEventView::FilesWritten(Err(detail))) => next
            is Finished && action == InstallActionView::Finish(
            Err(ManagerErrorView::Extraction { message: detail }),
        ),
        (InstallStateView::AwaitingLedger, InstallEventView::LedgerLoaded(ledger)) => next
            is AwaitingSave && (action matches InstallActionView::SaveLedger(saved) && exists|
            installed_at: Seq<char>,
        |
            installed_at.len() >= least_stamp_len() && saved == replaced(
                ledger,
                #[trigger] record_of(addon, installed_at),
            )),
        (InstallStateView::AwaitingSave, InstallEventView::LedgerSaved(Ok(_))) => next is Finished
            && action == InstallActionView::Finish(Ok(())),
        (InstallStateView::AwaitingSave, InstallEventView::LedgerSaved(Err(detail))) => next
            is Finished && action == InstallActionView::Finish(
            Err(ManagerErrorView::LedgerIo { message: detail }),
        ),
        _ => next == state && action is Ignore,
    }
}

/// Records in `ledger` that `addon` was installed at the time
/// `installed_at`: any earlier record of the addon is removed and the new one
/// is appended.
pub fn record_install(ledger: &mut InstalledAddons, addon: &Addon, installed_at: String)
    ensures
        final(ledger)@ == replaced(old(ledger)@, record_of(addon@, installed_at@)),
{
    ledger.replace(
        InstalledAddon { id: addon.id.clone(), version: addon.version.clone(), installed_at },
    );
}

/// Reads the answer to the download and plans the extraction.
fn on_downloaded(
    addon: &Addon,
    platform: Platform,
    root: String,
    answer: Result<HttpResponse, String>,
) -> (step: (InstallState, InstallAction))
    ensures
        after_download(
            addon@,
            platform,
            root@,
            match answer {
                Ok(response) => Ok(response@),
                Err(detail) => Err(detail@),
            },
            step.0@,
            step.1@,
        ),
{
    let response = match answer {
        Ok(response) => response,
        Err(detail) => {
            return (InstallState::Finished, InstallAction::Finish(Err(transport_error(detail))));
        },
    };
    let body = match check_response(response) {
        Ok(body) => body,
        Err(failure) => {
            return (InstallState::Finished, InstallAction::Finish(Err(failure)));
        },
    };
    let prefix = expected_prefix(addon.repo.as_str());
    match plan_extraction(body, prefix.as_str(), platform) {
        Ok(actions) => (
            InstallState::AwaitingFiles,
            InstallAction::Extract { root, dir_name: addon.id.clone(), actions },
        ),
        Err(failure) => (InstallState::Finished, InstallAction::Finish(Err(failure))),
    }
}

/// Takes one step of the install of `addon` on `platform`: given the state
/// of the install and the outcome of what was last asked, returns the next
/// state and what to do next. An install starts in `Start` with the event
/// `Begin` and has ended when the action is `Finish`.
pub fn install_addon(
    addon: &Addon,
    platform: Platform,
    state: InstallState,
    event: InstallEvent,
) -> (step: (InstallState, InstallAction))
    ensures
        install_step(addon@, platform, state@, event@, step.0@, step.1@),
{
    match state {
        InstallState::Start => match event {
            InstallEvent::Begin => (InstallState::AwaitingRoot, InstallAction::ResolveRoot),
            _ => (InstallState::Start, InstallAction::Ignore),
        },
        InstallState::AwaitingRoot => match event {
            InstallEvent::RootResolved(Ok(root)) => (
                InstallState::AwaitingArchive { root },
                InstallAction::Download(fetch_request(addon.repo.as_str())),
            ),
            InstallEvent::RootResolved(Err(failure)) => (
                InstallState::Finished,
                InstallAction::Finish(Err(failure)),
            ),
            _ => (InstallState::AwaitingRoot, InstallAction::Ignore),
        },
        InstallState::AwaitingArchive { root } => match event {
            InstallEvent::Downloaded(answer) => on_downloaded(addon, platform, root, answer),
            _ => (InstallState::AwaitingArchive { root }, InstallAction::Ignore),
        },
        InstallState::AwaitingFiles => match event {
            InstallEvent::FilesWritten(Ok(_)) => (
                InstallState::AwaitingLedger,
                InstallAction::LoadLedger,
            ),
            InstallEvent::FilesWritten(Err(detail)) => (
                InstallState::Finished,
                InstallAction::Finish(Err(ManagerError::Extraction { message: detail })),
            ),
            _ => (InstallState::AwaitingFiles, InstallAction::Ignore),
        },
        InstallState::AwaitingLedger => match event {
            InstallEvent::LedgerLoaded(decoded) => {
                let mut ledger = load_installed(decoded);
                let stamp = now_rfc3339();
                record_install(&mut ledger, addon, stamp);
                (InstallState::AwaitingSave, InstallAction::SaveLedger(ledger))
            },
            _ => (InstallState::AwaitingLedger, InstallAction::Ignore),
        },
        InstallState::AwaitingSave => match event {
            InstallEvent::LedgerSaved(Ok(_)) => (
                InstallState::Finished,
                InstallAction::Finish(Ok(())),
            ),
            InstallEvent::LedgerSaved(Err(detail)) => (
                InstallState::Finished,
                InstallAction::Finish(Err(ManagerError::LedgerIo { message: detail })),
            ),
            _ => (InstallState::AwaitingSave, InstallAction::Ignore),
        },
        InstallState::Finished => (InstallState::Finished, InstallAction::Ignore),
    }
}

/// The ledger is written only in answer to its being read, and it is read
/// only after the addon's files were written: an install that failed before
/// leaves the ledger as it was.
pub proof fn lemma_ledger_written_after_files(
    addon: AddonView,
    platform: Platform,
    state: InstallStateView,
    event: InstallEventView,
    next: InstallStateView,
    action: InstallActionView,
)
    requires
        install_step(addon, platform, state, event, next, action),
    ensures
        action is SaveLedger ==> state is AwaitingLedger && event is LedgerLoaded,
        action is LoadLedger ==> state is AwaitingFiles && (event matches InstallEventView::FilesWritten(
            Ok(_),
        )),
{
}

/// Idempotence of installs: when an addon is installed twice in succession,
/// the second install reading the ledger that the first one wrote, the
/// ledger written last holds exactly one record of the addon. It is the last
/// record, it carries the version of the second install, and the ledger is
/// what the second install alone would have made of the first ledger.
pub proof fn lemma_install_twice_records_once(
    first: AddonView,
    second: AddonView,
    platform: Platform,
    ledger: Seq<InstalledAddonView>,
    between: Seq<InstalledAddonView>,
    after: Seq<InstalledAddonView>,
)
    requires
        first.id == second.id,
        install_step(
            first,
            platform,
            InstallStateView::AwaitingLedger,
            InstallEventView::LedgerLoaded(ledger),
            InstallStateView::AwaitingSave,
            InstallActionView::SaveLedger(between),
        ),
        install_step(
            second,
            platform,
            InstallStateView::AwaitingLedger,
            InstallEventView::LedgerLoaded(between),
            InstallStateView::AwaitingSave,
            InstallActionView::SaveLedger(after),
        ),
    ensures
        count(after, second.id) == 1,
        after.len() > 0,
        after.last().id == second.id,
        after.last().version == second.version,
        after == replaced(ledger, after.last()),
{
    let stamp1 = choose|t: Seq<char>|
        t.len() >= least_stamp_len() && between == replaced(ledger, #[trigger] record_of(first, t));
    let stamp2 = choose|t: Seq<char>|
        t.len() >= least_stamp_len() && after == replaced(between, #[trigger] record_of(second, t));
    lemma_reinstall_supersedes(ledger, record_of(first, stamp1), record_of(second, stamp2));
}

/// How far an uninstall has come.
#[derive(Debug, Clone, Copy, PartialEq, Eq, Structural)]
pub enum UninstallState {
    /// Nothing was asked yet.
    Start,
    /// The install root is being resolved.
    AwaitingRoot,
    /// The addon's directory is being removed.
    AwaitingRemoval,
    /// The ledger is being read.
    AwaitingLedger,
    /// The ledger is being written.
    AwaitingSave,
    /// The uninstall has ended.
    Finished,
}

/// What the caller reports to an uninstall.
#[derive(Debug)]
pub enum UninstallEvent {
    /// The uninstall is to begin.
    Begin,
    /// The install root was resolved, or could not be.
    RootResolved(Result<String, ManagerError>),
    /// The addon's directory is gone: it was removed (`true`) or was not
    /// there in the first place (`false`); or its removal failed.
    DirectoryRemoved(Result<bool, String>),
    /// The ledger file was read; `None` where it is missing or malformed.
    LedgerLoaded(Option<InstalledAddons>),
    /// The ledger file was written, or could not be.
    LedgerSaved(Result<(), String>),
}

/// What an [`UninstallEvent`] is in contracts.
pub enum UninstallEventView {
    Begin,
    RootResolved(Result<Seq<char>, ManagerErrorView>),
    DirectoryRemoved(Result<bool, Seq<char>>),
    LedgerLoaded(Seq<InstalledAddonView>),
    LedgerSaved(Result<(), Seq<char>>),
}

impl View for UninstallEvent {
    type V = UninstallEventView;

    open spec fn view(&self) -> UninstallEventView {
        match self {
            UninstallEvent::Begin => UninstallEventView::Begin,
            UninstallEvent::RootResolved(root) => UninstallEventView::RootResolved(root_view(*root)),
            UninstallEvent::DirectoryRemoved(outcome) => UninstallEventView::DirectoryRemoved(
                match outcome {
                    Ok(existed) => Ok(*existed),
                    Err(detail) => Err(detail@),
                },
            ),
            UninstallEvent::LedgerLoaded(decoded) => UninstallEventView::LedgerLoaded(
                loaded(*decoded),
            ),
            UninstallEvent::LedgerSaved(outcome) => UninstallEventView::LedgerSaved(
                outcome_view(*outcome),
            ),
        }
    }
}

/// What an uninstall asks of its caller.
#[derive(Debug)]
pub enum UninstallAction {
    /// Resolve the install root and report `RootResolved`.
    ResolveRoot,
    /// Remove the directory `dir_name` under `root` with all it holds, if it
    /// exists, and report `DirectoryRemoved`.
    RemoveDirectory { root: String, dir_name: String },
    /// Read the ledger file and report `LedgerLoaded`.
    LoadLedger,
    /// Write the ledger file with this content and report `LedgerSaved`.
    SaveLedger(InstalledAddons),
    /// The operation has ended in this way; nothing is left to do.
    Finish(Result<(), ManagerError>),
    /// The event did not answer what was asked, and changed nothing.
    Ignore,
}

/// What an [`UninstallAction`] is in contracts.
pub enum UninstallActionView {
    ResolveRoot,
    RemoveDirectory { root: Seq<char>, dir_name: Seq<char> },
    LoadLedger,
    SaveLedger(Seq<InstalledAddonView>),
    Finish(Result<(), ManagerErrorView>),
    Ignore,
}

impl View for UninstallAction {
    type V = UninstallActionView;

    open spec fn view(&self) -> UninstallActionView {
        match self {
            UninstallAction::ResolveRoot => UninstallActionView::ResolveRoot,
            UninstallAction::RemoveDirectory { root, dir_name } => UninstallActionView::RemoveDirectory {
                root: root@,
                dir_name: dir_name@,
            },
            UninstallAction::LoadLedger => UninstallActionView::LoadLedger,
            UninstallAction::SaveLedger(ledger) => UninstallActionView::SaveLedger(ledger@),
            UninstallAction::Finish(end) => UninstallActionView::Finish(end_view(*end)),
            UninstallAction::Ignore => UninstallActionView::Ignore,
        }
    }
}

/// The step of an uninstall of the addon `id`: the state that follows
/// `state` on `event`, and what is asked next.
///
/// The uninstall resolves the root, has the addon's directory removed, and
/// then removes the addon's records from the ledger, whether or not there
/// was a directory. The first failure ends it. An event that does not answer
/// what was asked changes nothing.
pub open spec fn uninstall_step(id: Seq<char>, state: UninstallState, event: UninstallEventView) -> (
    UninstallState,
    UninstallActionView,
) {
    match (state, event) {
        (UninstallState::Start, UninstallEventView::Begin) => (
            UninstallState::AwaitingRoot,
            UninstallActionView::ResolveRoot,
        ),
        (UninstallState::AwaitingRoot, UninstallEventView::RootResolved(Ok(root))) => (
            UninstallState::AwaitingRemoval,
            UninstallActionView::RemoveDirectory { root, dir_name: id },
        ),
        (UninstallState::AwaitingRoot, UninstallEventView::RootResolved(Err(failure))) => (
            UninstallState::Finished,
            UninstallActionView::Finish(Err(failure)),
        ),
        (UninstallState::AwaitingRemoval, UninstallEventView::DirectoryRemoved(Ok(_))) => (
            UninstallState::AwaitingLedger,
            UninstallActionView::LoadLedger,
        ),
        (UninstallState::AwaitingRemoval, UninstallEventView::DirectoryRemoved(Err(detail))) => (
            UninstallState::Finished,
            UninstallActionView::Finish(Err(ManagerErrorView::Extraction { message: detail })),
        ),
        (UninstallState::AwaitingLedger, UninstallEventView::LedgerLoaded(ledger)) => (
            UninstallState::AwaitingSave,
            UninstallActionView::SaveLedger(without(ledger, id)),
        ),
        (UninstallState::AwaitingSave, UninstallEventView::LedgerSaved(Ok(_))) => (
            UninstallState::Finished,
            UninstallActionView::Finish(Ok(())),
        ),
        (UninstallState::AwaitingSave, UninstallEventView::LedgerSaved(Err(detail))) => (
            UninstallState::Finished,
            UninstallActionView::Finish(Err(ManagerErrorView::LedgerIo { message: detail })),
        ),
        _ => (state, UninstallActionView::Ignore),
    }
}

/// Takes one step of the uninstall of the addon `addon_id`: given the state
/// of the uninstall and the outcome of what was last asked, returns the next
/// state and what to do next. An uninstall starts in `Start` with the event
/// `Begin` and has ended when the action is `Finish`.
pub fn uninstall_addon(addon_id: &str, state: UninstallState, event: UninstallEvent) -> (step: (
    UninstallState,
    UninstallAction,
))
    ensures
        (step.0, step.1@) == uninstall_step(addon_id@, state, event@),
{
    match state {
        UninstallState::Start => match event {
            UninstallEvent::Begin => (UninstallState::AwaitingRoot, UninstallAction::ResolveRoot),
            _ => (state, UninstallAction::Ignore),
        },
        UninstallState::AwaitingRoot => match event {
            UninstallEvent::RootResolved(Ok(root)) => (
                UninstallState::AwaitingRemoval,
                UninstallAction::RemoveDirectory { root, dir_name: String::from_str(addon_id) },
            ),
            UninstallEvent::RootResolved(Err(failure)) => (
                UninstallState::Finished,
                UninstallAction::Finish(Err(failure)),
            ),
            _ => (state, UninstallAction::Ignore),
        },
        UninstallState::AwaitingRemoval => match event {
            UninstallEvent::DirectoryRemoved(Ok(_)) => (
                UninstallState::AwaitingLedger,
                UninstallAction::LoadLedger,
            ),
            UninstallEvent::DirectoryRemoved(Err(detail)) => (
                UninstallState::Finished,
                UninstallAction::Finish(Err(ManagerError::Extraction { message: detail })),
            ),
            _ => (state, UninstallAction::Ignore),
        },
        UninstallState::AwaitingLedger => match event {
            UninstallEvent::LedgerLoaded(decoded) => {
                let mut ledger = load_installed(decoded);
                ledger.remove(addon_id);
                (UninstallState::AwaitingSave, UninstallAction::SaveLedger(ledger))
            },
            _ => (state, UninstallAction::Ignore),
        },
        UninstallState::AwaitingSave => match event {
            UninstallEvent::LedgerSaved(Ok(_)) => (
                UninstallState::Finished,
                UninstallAction::Finish(Ok(())),
            ),
            UninstallEvent::LedgerSaved(Err(detail)) => (
                UninstallState::Finished,
                UninstallAction::Finish(Err(ManagerError::LedgerIo { message: detail })),
            ),
            _ => (state, UninstallAction::Ignore),
        },
        UninstallState::Finished => (state, UninstallAction::Ignore),
    }
}

/// Uninstall after the directory went missing: an uninstall whose root
/// resolves and whose ledger can be written succeeds whether or not the
/// addon's directory was on disk, and the ledger it writes holds no record
/// of the addon while every other record stays.
pub proof fn lemma_uninstall_repairs_ledger(
    id: Seq<char>,
    root: Seq<char>,
    existed: bool,
    ledger: Seq<InstalledAddonView>,
)
    ensures
        ({
            let begun = uninstall_step(id, UninstallState::Start, UninstallEventView::Begin);
            let resolved = uninstall_step(id, begun.0, UninstallEventView::RootResolved(Ok(root)));
            let removed = uninstall_step(
                id,
                resolved.0,
                UninstallEventView::DirectoryRemoved(Ok(existed)),
            );
            let read = uninstall_step(id, removed.0, UninstallEventView::LedgerLoaded(ledger));
            let written = uninstall_step(id, read.0, UninstallEventView::LedgerSaved(Ok(())));
            &&& resolved.1 == (UninstallActionView::RemoveDirectory { root, dir_name: id })
            &&& removed.1 is LoadLedger
            &&& read.1 == UninstallActionView::SaveLedger(without(ledger, id))
            &&& written == (UninstallState::Finished, UninstallActionView::Finish(Ok(())))
        }),
        count(without(ledger, id), id) == 0,
        forall|other: Seq<char>|
            other != id ==> #[trigger] count(without(ledger, id), other) == count(ledger, other),
{
    lemma_removed_id_is_absent(ledger, id);
    assert forall|other: Seq<char>| other != id implies #[trigger] count(without(ledger, id), other)
        == count(ledger, other) by {
        lemma_remove_leaves_others(ledger, id, other);
    }
}

} // verus!
