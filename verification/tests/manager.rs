use std::io::Write;
use wow_addon_manager::error::ManagerError;
use wow_addon_manager::extract::ExtractAction;
use wow_addon_manager::fetch::HttpResponse;
use wow_addon_manager::ledger::InstalledAddons;
use wow_addon_manager::manager::{
    install_addon, record_install, uninstall_addon, InstallAction, InstallEvent, InstallState,
    UninstallAction, UninstallEvent, UninstallState,
};
use wow_addon_manager::model::{Addon, InstalledAddon};
use wow_addon_manager::resolver::Platform;

fn foo() -> Addon {
    Addon {
        id: "Foo".to_string(),
        name: "Foo".to_string(),
        description: "An addon".to_string(),
        icon: None,
        repo: "me/Foo".to_string(),
        version: "1.0.0".to_string(),
    }
}

fn record(id: &str, version: &str, installed_at: &str) -> InstalledAddon {
    InstalledAddon {
        id: id.to_string(),
        version: version.to_string(),
        installed_at: installed_at.to_string(),
    }
}

fn foo_archive() -> Vec<u8> {
    let mut writer = zip::ZipWriter::new(std::io::Cursor::new(Vec::new()));
    let options = zip::write::SimpleFileOptions::default()
        .compression_method(zip::CompressionMethod::Deflated);
    writer.add_directory("Foo-main/", options).unwrap();
    writer.start_file("Foo-main/init.lua", options).unwrap();
    writer.write_all(b"-- init").unwrap();
    writer.add_directory("Foo-main/sub/", options).unwrap();
    writer.start_file("Foo-main/sub/x.lua", options).unwrap();
    writer.write_all(b"-- x").unwrap();
    writer.finish().unwrap().into_inner()
}

fn ok_response(body: Vec<u8>) -> HttpResponse {
    HttpResponse { status: 200, status_text: "200 OK".to_string(), body }
}

fn downloading(addon: &Addon) -> InstallState {
    let (state, _) = install_addon(addon, Platform::Other, InstallState::Start, InstallEvent::Begin);
    let (state, _) =
        install_addon(addon, Platform::Other, state, InstallEvent::RootResolved(Ok("/games/AddOns".to_string())));
    state
}

fn ledger_of(action: InstallAction) -> InstalledAddons {
    match action {
        InstallAction::SaveLedger(ledger) => ledger,
        other => panic!("unexpected: {:?}", other),
    }
}

fn failure_of(action: InstallAction) -> ManagerError {
    match action {
        InstallAction::Finish(Err(error)) => error,
        other => panic!("unexpected: {:?}", other),
    }
}

#[test]
fn an_install_runs_from_the_download_to_the_ledger() {
    let addon = foo();
    let (state, action) = install_addon(&addon, Platform::Other, InstallState::Start, InstallEvent::Begin);
    assert!(matches!(state, InstallState::AwaitingRoot));
    assert!(matches!(action, InstallAction::ResolveRoot));

    let (state, action) =
        install_addon(&addon, Platform::Other, state, InstallEvent::RootResolved(Ok("/games/AddOns".to_string())));
    assert!(matches!(&state, InstallState::AwaitingArchive { root } if root == "/games/AddOns"));
    match action {
        InstallAction::Download(request) => {
            assert_eq!(request.url, "https://github.com/me/Foo/archive/refs/heads/main.zip");
            assert_eq!(request.user_agent, "WoW-Addon-Manager");
            assert_eq!(request.max_redirects, 10);
        }
        other => panic!("unexpected: {:?}", other),
    }

    let (state, action) =
        install_addon(&addon, Platform::Other, state, InstallEvent::Downloaded(Ok(ok_response(foo_archive()))));
    assert!(matches!(state, InstallState::AwaitingFiles));
    match action {
        InstallAction::Extract { root, dir_name, actions } => {
            assert_eq!(root, "/games/AddOns");
            assert_eq!(dir_name, "Foo");
            assert_eq!(actions.len(), 3);
            assert!(matches!(&actions[0], ExtractAction::WriteFile { path, data }
                if path == &vec!["init.lua"] && data == b"-- init"));
            assert!(matches!(&actions[1], ExtractAction::CreateDir { path }
                if path == &vec!["sub"]));
            assert!(matches!(&actions[2], ExtractAction::WriteFile { path, data }
                if path == &vec!["sub", "x.lua"] && data == b"-- x"));
        }
        other => panic!("unexpected: {:?}", other),
    }

    let (state, action) = install_addon(&addon, Platform::Other, state, InstallEvent::FilesWritten(Ok(())));
    assert!(matches!(state, InstallState::AwaitingLedger));
    assert!(matches!(action, InstallAction::LoadLedger));

    let (state, action) = install_addon(&addon, Platform::Other, state, InstallEvent::LedgerLoaded(None));
    assert!(matches!(state, InstallState::AwaitingSave));
    let ledger = ledger_of(action);
    assert_eq!(ledger.addons.len(), 1);
    assert_eq!(ledger.addons[0].id, "Foo");
    assert_eq!(ledger.addons[0].version, "1.0.0");
    assert!(!ledger.addons[0].installed_at.is_empty());

    let (state, action) = install_addon(&addon, Platform::Other, state, InstallEvent::LedgerSaved(Ok(())));
    assert!(matches!(state, InstallState::Finished));
    assert!(matches!(action, InstallAction::Finish(Ok(()))));
}

#[test]
fn the_install_time_is_an_rfc_3339_timestamp() {
    let addon = foo();
    let (_, action) =
        install_addon(&addon, Platform::Other, InstallState::AwaitingLedger, InstallEvent::LedgerLoaded(None));
    let ledger = ledger_of(action);
    let stamp = &ledger.addons[0].installed_at;
    assert!(chrono::DateTime::parse_from_rfc3339(stamp).is_ok(), "{}", stamp);
    assert!(stamp.chars().count() >= 25, "{}", stamp);
    assert!(stamp.ends_with("+00:00"), "{}", stamp);
}

#[test]
fn installing_twice_leaves_one_record_with_the_second_version() {
    let first = foo();
    let mut second = foo();
    second.version = "2.0.0".to_string();
    let others = InstalledAddons { addons: vec![record("Bar", "0.1", "t0")] };
    let (_, action) = install_addon(
        &first, Platform::Other,
        InstallState::AwaitingLedger,
        InstallEvent::LedgerLoaded(Some(others)),
    );
    let between = ledger_of(action);
    assert_eq!(between.addons.len(), 2);
    let (_, action) = install_addon(
        &second, Platform::Other,
        InstallState::AwaitingLedger,
        InstallEvent::LedgerLoaded(Some(between)),
    );
    let after = ledger_of(action);
    let foos: Vec<&InstalledAddon> = after.addons.iter().filter(|a| a.id == "Foo").collect();
    assert_eq!(foos.len(), 1);
    assert_eq!(foos[0].version, "2.0.0");
    assert_eq!(after.addons.len(), 2);
    assert_eq!(after.addons[0].id, "Bar");
    assert_eq!(after.addons[1].id, "Foo");
}

#[test]
fn record_install_takes_id_and_version_from_the_addon() {
    let mut ledger = InstalledAddons {
        addons: vec![record("Foo", "0.9", "t0"), record("Bar", "0.1", "t1")],
    };
    record_install(&mut ledger, &foo(), "2024-03-04T05:06:07+00:00".to_string());
    assert_eq!(ledger.addons.len(), 2);
    assert_eq!(ledger.addons[0].id, "Bar");
    assert_eq!(ledger.addons[1].id, "Foo");
    assert_eq!(ledger.addons[1].version, "1.0.0");
    assert_eq!(ledger.addons[1].installed_at, "2024-03-04T05:06:07+00:00");
}

#[test]
fn an_unresolved_root_ends_the_install() {
    let addon = foo();
    let error = ManagerError::PathNotFound { message: "nowhere".to_string() };
    let (state, action) =
        install_addon(&addon, Platform::Other, InstallState::AwaitingRoot, InstallEvent::RootResolved(Err(error)));
    assert!(matches!(state, InstallState::Finished));
    let failure = failure_of(action);
    assert!(matches!(failure, ManagerError::PathNotFound { .. }));
    assert_eq!(failure.message(), "nowhere");
}

#[test]
fn a_download_without_answer_ends_the_install() {
    let addon = foo();
    let (state, action) = install_addon(
        &addon, Platform::Other,
        downloading(&addon),
        InstallEvent::Downloaded(Err("dns failure".to_string())),
    );
    assert!(matches!(state, InstallState::Finished));
    match failure_of(action) {
        ManagerError::Fetch { status, message } => {
            assert_eq!(status, None);
            assert_eq!(message, "dns failure");
        }
        other => panic!("unexpected: {:?}", other),
    }
}

#[test]
fn a_refused_download_ends_the_install_with_the_status() {
    let addon = foo();
    let response = HttpResponse {
        status: 404,
        status_text: "404 Not Found".to_string(),
        body: foo_archive(),
    };
    let (state, action) =
        install_addon(&addon, Platform::Other, downloading(&addon), InstallEvent::Downloaded(Ok(response)));
    assert!(matches!(state, InstallState::Finished));
    match failure_of(action) {
        ManagerError::Fetch { status, message } => {
            assert_eq!(status, Some(404));
            assert_eq!(message, "Failed to download: 404 Not Found");
        }
        other => panic!("unexpected: {:?}", other),
    }
}

#[test]
fn a_body_that_is_no_archive_ends_the_install() {
    let addon = foo();
    let (state, action) = install_addon(
        &addon, Platform::Other,
        downloading(&addon),
        InstallEvent::Downloaded(Ok(ok_response(b"<html>not a zip</html>".to_vec()))),
    );
    assert!(matches!(state, InstallState::Finished));
    assert!(matches!(failure_of(action), ManagerError::Archive { .. }));
}

#[test]
fn failed_work_on_disk_ends_the_install_before_the_ledger() {
    let addon = foo();
    let (state, action) = install_addon(
        &addon, Platform::Other,
        InstallState::AwaitingFiles,
        InstallEvent::FilesWritten(Err("permission denied".to_string())),
    );
    assert!(matches!(state, InstallState::Finished));
    let failure = failure_of(action);
    assert!(matches!(failure, ManagerError::Extraction { .. }));
    assert_eq!(failure.message(), "permission denied");
}

#[test]
fn a_failed_write_of_the_ledger_ends_the_install() {
    let addon = foo();
    let (state, action) = install_addon(
        &addon, Platform::Other,
        InstallState::AwaitingSave,
        InstallEvent::LedgerSaved(Err("disk full".to_string())),
    );
    assert!(matches!(state, InstallState::Finished));
    let failure = failure_of(action);
    assert!(matches!(failure, ManagerError::LedgerIo { .. }));
    assert_eq!(failure.message(), "disk full");
}

#[test]
fn an_event_that_answers_nothing_is_ignored_by_an_install() {
    let addon = foo();
    let (state, action) =
        install_addon(&addon, Platform::Other, InstallState::Start, InstallEvent::LedgerSaved(Ok(())));
    assert!(matches!(state, InstallState::Start));
    assert!(matches!(action, InstallAction::Ignore));
    let (state, action) = install_addon(&addon, Platform::Other, downloading(&addon), InstallEvent::Begin);
    assert!(matches!(&state, InstallState::AwaitingArchive { root } if root == "/games/AddOns"));
    assert!(matches!(action, InstallAction::Ignore));
    let (state, action) = install_addon(&addon, Platform::Other, InstallState::Finished, InstallEvent::Begin);
    assert!(matches!(state, InstallState::Finished));
    assert!(matches!(action, InstallAction::Ignore));
    let (state, action) = install_addon(
        &addon, Platform::Other,
        InstallState::AwaitingFiles,
        InstallEvent::LedgerLoaded(None),
    );
    assert!(matches!(state, InstallState::AwaitingFiles));
    assert!(matches!(action, InstallAction::Ignore));
}

fn uninstall_to_the_ledger(existed: bool) -> UninstallState {
    let (state, action) = uninstall_addon("Foo", UninstallState::Start, UninstallEvent::Begin);
    assert_eq!(state, UninstallState::AwaitingRoot);
    assert!(matches!(action, UninstallAction::ResolveRoot));
    let (state, action) = uninstall_addon(
        "Foo",
        state,
        UninstallEvent::RootResolved(Ok("/games/AddOns".to_string())),
    );
    assert_eq!(state, UninstallState::AwaitingRemoval);
    assert!(matches!(&action, UninstallAction::RemoveDirectory { root, dir_name }
        if root == "/games/AddOns" && dir_name == "Foo"));
    let (state, action) =
        uninstall_addon("Foo", state, UninstallEvent::DirectoryRemoved(Ok(existed)));
    assert_eq!(state, UninstallState::AwaitingLedger);
    assert!(matches!(action, UninstallAction::LoadLedger));
    state
}

#[test]
fn an_uninstall_without_a_directory_still_clears_the_ledger() {
    let state = uninstall_to_the_ledger(false);
    let ledger = InstalledAddons {
        addons: vec![record("Bar", "0.1", "t0"), record("Foo", "1.0.0", "t1")],
    };
    let (state, action) = uninstall_addon("Foo", state, UninstallEvent::LedgerLoaded(Some(ledger)));
    assert_eq!(state, UninstallState::AwaitingSave);
    match action {
        UninstallAction::SaveLedger(saved) => {
            assert_eq!(saved.addons.len(), 1);
            assert_eq!(saved.addons[0].id, "Bar");
        }
        other => panic!("unexpected: {:?}", other),
    }
    let (state, action) = uninstall_addon("Foo", state, UninstallEvent::LedgerSaved(Ok(())));
    assert_eq!(state, UninstallState::Finished);
    assert!(matches!(action, UninstallAction::Finish(Ok(()))));
}

#[test]
fn an_uninstall_with_a_directory_clears_the_ledger_too() {
    let state = uninstall_to_the_ledger(true);
    let (state, action) = uninstall_addon("Foo", state, UninstallEvent::LedgerLoaded(None));
    assert_eq!(state, UninstallState::AwaitingSave);
    assert!(matches!(&action, UninstallAction::SaveLedger(saved) if saved.addons.is_empty()));
}

#[test]
fn an_uninstall_ends_at_its_first_failure() {
    let error = ManagerError::PathNotFound { message: "nowhere".to_string() };
    let (state, action) =
        uninstall_addon("Foo", UninstallState::AwaitingRoot, UninstallEvent::RootResolved(Err(error)));
    assert_eq!(state, UninstallState::Finished);
    assert!(matches!(action, UninstallAction::Finish(Err(ManagerError::PathNotFound { .. }))));

    let (state, action) = uninstall_addon(
        "Foo",
        UninstallState::AwaitingRemoval,
        UninstallEvent::DirectoryRemoved(Err("busy".to_string())),
    );
    assert_eq!(state, UninstallState::Finished);
    assert!(matches!(&action, UninstallAction::Finish(Err(ManagerError::Extraction { message }))
        if message == "busy"));

    let (state, action) = uninstall_addon(
        "Foo",
        UninstallState::AwaitingSave,
        UninstallEvent::LedgerSaved(Err("disk full".to_string())),
    );
    assert_eq!(state, UninstallState::Finished);
    assert!(matches!(&action, UninstallAction::Finish(Err(ManagerError::LedgerIo { message }))
        if message == "disk full"));
}

#[test]
fn an_event_that_answers_nothing_is_ignored_by_an_uninstall() {
    let (state, action) =
        uninstall_addon("Foo", UninstallState::Start, UninstallEvent::LedgerLoaded(None));
    assert_eq!(state, UninstallState::Start);
    assert!(matches!(action, UninstallAction::Ignore));
    let (state, action) =
        uninstall_addon("Foo", UninstallState::Finished, UninstallEvent::Begin);
    assert_eq!(state, UninstallState::Finished);
    assert!(matches!(action, UninstallAction::Ignore));
}

#[test]
fn an_install_on_windows_reads_backslashes_as_separators() {
    let addon = foo();
    let mut writer = zip::ZipWriter::new(std::io::Cursor::new(Vec::new()));
    let options = zip::write::SimpleFileOptions::default();
    writer.start_file("Foo-main/sub\\x.lua", options).unwrap();
    writer.write_all(b"-- x").unwrap();
    writer.start_file("Foo-main/..\\evil.lua", options).unwrap();
    writer.write_all(b"-- evil").unwrap();
    let archive = writer.finish().unwrap().into_inner();
    let (_, action) = install_addon(
        &addon,
        Platform::Windows,
        downloading(&addon),
        InstallEvent::Downloaded(Ok(ok_response(archive.clone()))),
    );
    match action {
        InstallAction::Extract { actions, .. } => {
            assert_eq!(actions.len(), 1);
            assert!(matches!(&actions[0], ExtractAction::WriteFile { path, data }
                if path == &vec!["sub", "x.lua"] && data == b"-- x"));
        }
        other => panic!("unexpected: {:?}", other),
    }
    let (_, action) = install_addon(
        &addon,
        Platform::MacOs,
        downloading(&addon),
        InstallEvent::Downloaded(Ok(ok_response(archive))),
    );
    match action {
        InstallAction::Extract { actions, .. } => {
            assert_eq!(actions.len(), 2);
            assert!(matches!(&actions[0], ExtractAction::WriteFile { path, .. }
                if path == &vec!["sub\\x.lua"]));
            assert!(matches!(&actions[1], ExtractAction::WriteFile { path, .. }
                if path == &vec!["..\\evil.lua"]));
        }
        other => panic!("unexpected: {:?}", other),
    }
}

#[test]
fn the_message_of_a_broken_archive_is_what_the_reader_says() {
    let addon = foo();
    let body = b"<html>not a zip</html>".to_vec();
    let said = match zip::ZipArchive::new(std::io::Cursor::new(body.clone())) {
        Err(error) => error.to_string(),
        Ok(_) => panic!("the bytes opened as an archive"),
    };
    let (_, action) = install_addon(
        &addon,
        Platform::Other,
        downloading(&addon),
        InstallEvent::Downloaded(Ok(ok_response(body))),
    );
    assert_eq!(failure_of(action).message(), said);
}
