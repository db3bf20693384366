use test_manager::config::{OsKind, Provisioner, VmConfig};
use test_manager::store::ConfigStore;

fn cfg(dir: &str) -> VmConfig {
    VmConfig {
        os_type: OsKind::Linux,
        provisioner: Provisioner::Noop,
        default_runner_dir: dir.to_string(),
    }
}

#[test]
fn set_twice_same_values_yields_one_entry() {
    let mut store = ConfigStore::empty();
    let name = "alpha".to_string();
    store.set_config(&name, cfg("/opt/runner"));
    store.set_config(&name, cfg("/opt/runner"));
    assert_eq!(store.entries().len(), 1);
    let got = store.get_vm(&name).expect("entry must exist");
    assert_eq!(got.default_runner_dir, "/opt/runner");
}

#[test]
fn set_twice_keeps_latest_values() {
    let mut store = ConfigStore::empty();
    let name = "alpha".to_string();
    store.set_config(&name, cfg("/old"));
    store.set_config(&name, cfg("/new"));
    assert_eq!(store.entries().len(), 1);
    let got = store.get_vm(&name).expect("entry must exist");
    assert_eq!(got.default_runner_dir, "/new");
}

#[test]
fn set_keeps_other_entries_and_order() {
    let mut store = ConfigStore::empty();
    store.set_config(&"a".to_string(), cfg("/a"));
    store.set_config(&"b".to_string(), cfg("/b"));
    store.set_config(&"a".to_string(), cfg("/a2"));
    assert_eq!(store.entries().len(), 2);
    assert_eq!(store.entries()[0].name, "a");
    assert_eq!(store.entries()[0].config.default_runner_dir, "/a2");
    assert_eq!(store.entries()[1].name, "b");
}

#[test]
fn remove_absent_name_reports_not_found_and_keeps_store() {
    let mut store = ConfigStore::empty();
    store.set_config(&"a".to_string(), cfg("/a"));
    let removed = store.remove_config(&"missing".to_string());
    assert!(!removed);
    assert_eq!(store.entries().len(), 1);
}

#[test]
fn remove_present_name_drops_only_that_entry() {
    let mut store = ConfigStore::empty();
    store.set_config(&"a".to_string(), cfg("/a"));
    store.set_config(&"b".to_string(), cfg("/b"));
    let removed = store.remove_config(&"a".to_string());
    assert!(removed);
    assert_eq!(store.entries().len(), 1);
    assert_eq!(store.entries()[0].name, "b");
    assert!(store.get_vm(&"a".to_string()).is_none());
}

#[test]
fn get_vm_absent_is_none() {
    let store = ConfigStore::empty();
    assert!(store.get_vm(&"nope".to_string()).is_none());
}
