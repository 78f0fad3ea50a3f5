use wow_addon_manager::ledger::{
    get_installed_addons, get_installed_file_path, load_installed, InstalledAddons,
};
use wow_addon_manager::model::InstalledAddon;

fn record(id: &str, version: &str, installed_at: &str) -> InstalledAddon {
    InstalledAddon {
        id: id.to_string(),
        version: version.to_string(),
        installed_at: installed_at.to_string(),
    }
}

fn ids(ledger: &InstalledAddons) -> Vec<String> {
    ledger.addons.iter().map(|a| a.id.clone()).collect()
}

#[test]
fn new_ledger_is_empty() {
    assert!(InstalledAddons::new().addons.is_empty());
}

#[test]
fn replace_twice_keeps_one_record_with_the_second_values() {
    let mut ledger = InstalledAddons::new();
    ledger.replace(record("Foo", "1.0.0", "2024-01-01T00:00:00+00:00"));
    ledger.replace(record("Foo", "1.1.0", "2024-02-01T00:00:00+00:00"));
    assert_eq!(ledger.addons.len(), 1);
    assert_eq!(ledger.addons[0].id, "Foo");
    assert_eq!(ledger.addons[0].version, "1.1.0");
    assert_eq!(ledger.addons[0].installed_at, "2024-02-01T00:00:00+00:00");
}

#[test]
fn replace_moves_the_record_to_the_end_and_keeps_the_others_in_order() {
    let mut ledger = InstalledAddons::new();
    ledger.replace(record("A", "1", "t1"));
    ledger.replace(record("B", "1", "t2"));
    ledger.replace(record("C", "1", "t3"));
    ledger.replace(record("A", "2", "t4"));
    assert_eq!(ids(&ledger), vec!["B", "C", "A"]);
    assert_eq!(ledger.addons[2].version, "2");
    assert_eq!(ledger.addons[2].installed_at, "t4");
    assert_eq!(ledger.addons[0].installed_at, "t2");
}

#[test]
fn replace_removes_every_duplicate_of_a_hand_edited_ledger() {
    let mut ledger = InstalledAddons {
        addons: vec![record("A", "1", "t1"), record("B", "1", "t2"), record("A", "2", "t3")],
    };
    ledger.replace(record("A", "3", "t4"));
    assert_eq!(ids(&ledger), vec!["B", "A"]);
    assert_eq!(ledger.addons[1].version, "3");
}

#[test]
fn remove_drops_the_record_and_keeps_the_rest() {
    let mut ledger = InstalledAddons {
        addons: vec![record("A", "1", "t1"), record("B", "1", "t2"), record("C", "1", "t3")],
    };
    ledger.remove("B");
    assert_eq!(ids(&ledger), vec!["A", "C"]);
    assert_eq!(ledger.addons[0].installed_at, "t1");
    assert_eq!(ledger.addons[1].installed_at, "t3");
}

#[test]
fn remove_of_an_absent_id_changes_nothing() {
    let mut ledger = InstalledAddons { addons: vec![record("A", "1", "t1")] };
    ledger.remove("missing");
    assert_eq!(ids(&ledger), vec!["A"]);
    let mut empty = InstalledAddons::new();
    empty.remove("missing");
    assert!(empty.addons.is_empty());
}

#[test]
fn ids_are_compared_exactly() {
    let mut ledger = InstalledAddons {
        addons: vec![record("foo", "1", "t1"), record("Foo", "1", "t2"), record("Foo ", "1", "t3")],
    };
    ledger.remove("Foo");
    assert_eq!(ids(&ledger), vec!["foo", "Foo "]);
}

#[test]
fn a_failed_read_of_the_ledger_gives_the_empty_ledger() {
    assert!(load_installed(None).addons.is_empty());
    assert!(get_installed_addons(None).is_empty());
}

#[test]
fn a_decoded_ledger_is_kept_as_it_is() {
    let decoded = InstalledAddons { addons: vec![record("A", "1", "t1"), record("B", "2", "t2")] };
    let ledger = load_installed(Some(decoded.clone()));
    assert_eq!(ids(&ledger), vec!["A", "B"]);
    let listed = get_installed_addons(Some(decoded));
    assert_eq!(listed.len(), 2);
    assert_eq!(listed[1].version, "2");
    assert_eq!(listed[1].installed_at, "t2");
}

#[test]
fn the_ledger_file_lies_below_the_data_directory_of_the_platform() {
    let base = match dirs::data_local_dir() {
        Some(dir) => dir.to_string_lossy().into_owned(),
        None => ".".to_string(),
    };
    assert_eq!(
        get_installed_file_path(),
        vec![base.as_str(), "wow-addon-manager", "installed.json"]
    );
}

#[test]
fn duplicate_copies_every_field() {
    let first = record("A", "1.2.3", "2024-05-06T07:08:09+00:00");
    let copy = first.duplicate();
    assert_eq!(copy.id, "A");
    assert_eq!(copy.version, "1.2.3");
    assert_eq!(copy.installed_at, "2024-05-06T07:08:09+00:00");
}
