use test_manager::args::{derive_display_mode, Args, Commands};
use test_manager::config::DisplayMode;
use test_manager::decimal::u32_to_dec;
use test_manager::errors::ArgsError;
use test_manager::hosts::{effective_host, resolve_host_pair};
use test_manager::paths::file_name;

#[test]
fn display_mode_neither_is_off() {
    assert_eq!(derive_display_mode(false, None), Ok(DisplayMode::Off));
}

#[test]
fn display_mode_display_only_is_local() {
    assert_eq!(derive_display_mode(true, None), Ok(DisplayMode::Local));
}

#[test]
fn display_mode_vnc_only_is_vnc_with_port() {
    assert_eq!(derive_display_mode(false, Some(5901)), Ok(DisplayMode::Vnc(5901)));
}

#[test]
fn display_mode_both_is_rejected() {
    assert_eq!(
        derive_display_mode(true, Some(5901)),
        Err(ArgsError::ConflictingDisplayArgs)
    );
}

#[test]
fn vnc_port_comes_from_run_vm_and_run_tests_only() {
    let run_vm = Args {
        cmd: Commands::RunVm { vm: "a".to_string(), vnc: Some(5901), keep_changes: false },
    };
    assert_eq!(run_vm.get_vnc_port(), Some(5901));

    let other = Args { cmd: Commands::Remove { vm: "a".to_string() } };
    assert_eq!(other.get_vnc_port(), None);

    let list = Args { cmd: Commands::List };
    assert_eq!(list.get_vnc_port(), None);
}

#[test]
fn host_table_maps_each_known_environment() {
    let hp = resolve_host_pair(&"mullvad.net".to_string()).expect("known environment");
    assert_eq!(hp.api, "api.mullvad.net");
    assert_eq!(hp.conncheck, "ipv4.am.i.mullvad.net");

    let hp = resolve_host_pair(&"stagemole.eu".to_string()).expect("known environment");
    assert_eq!(hp.api, "api.stagemole.eu");
    assert_eq!(hp.conncheck, "ipv4.am.i.stagemole.eu");

    let hp = resolve_host_pair(&"devmole.eu".to_string()).expect("known environment");
    assert_eq!(hp.api, "api.devmole.eu");
    assert_eq!(hp.conncheck, "ipv4.am.i.devmole.eu");
}

#[test]
fn host_table_rejects_unknown_environment() {
    match resolve_host_pair(&"example.org".to_string()) {
        Err(ArgsError::UnknownEnvironment(name)) => assert_eq!(name, "example.org"),
        other => panic!("expected UnknownEnvironment, got {:?}", other),
    }
}

#[test]
fn effective_host_prefers_override_then_stored_then_production() {
    let stored = Some("stagemole.eu".to_string());
    assert_eq!(effective_host(Some("devmole.eu".to_string()), &stored), "devmole.eu");
    assert_eq!(effective_host(None, &stored), "stagemole.eu");
    assert_eq!(effective_host(None, &None), "mullvad.net");
}

#[test]
fn decimal_rendering_is_exact() {
    assert_eq!(u32_to_dec(0), "0");
    assert_eq!(u32_to_dec(5), "5");
    assert_eq!(u32_to_dec(10), "10");
    assert_eq!(u32_to_dec(907), "907");
    assert_eq!(u32_to_dec(u32::MAX), "4294967295");
}

#[test]
fn file_name_takes_suffix_after_last_separator() {
    assert_eq!(file_name(&"/pkg/app-2024.1.deb".to_string()), "app-2024.1.deb");
    assert_eq!(file_name(&"bare-name.exe".to_string()), "bare-name.exe");
    assert_eq!(file_name(&"/a/b/".to_string()), "");
    assert_eq!(file_name(&"".to_string()), "");
}
