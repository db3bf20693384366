use test_manager::config::{DisplayMode, OsKind, Provisioner, VmConfig};
use test_manager::context::AppManifest;
use test_manager::errors::{PipelineError, ProvisionPhase};
use test_manager::hosts::HostPair;
use test_manager::pipeline::{
    start_run_vm, start_update, Action, Event, Phase, Pipeline, RunParams, SOCKS5_PORT,
};
use test_manager::registry::TestDescriptor;
use test_manager::store::ConfigStore;
use test_manager::summary::TestOutcome;

fn cfg() -> VmConfig {
    VmConfig {
        os_type: OsKind::Linux,
        provisioner: Provisioner::Noop,
        default_runner_dir: "/opt/testing".to_string(),
    }
}

fn store_with(name: &str) -> ConfigStore {
    let mut store = ConfigStore::empty();
    store.set_config(&name.to_string(), cfg());
    store
}

fn registry_ab() -> Vec<TestDescriptor> {
    vec![
        TestDescriptor { name: "test_a".to_string(), priority: Some(5) },
        TestDescriptor { name: "test_b".to_string(), priority: Some(1) },
    ]
}

fn params(vm: &str, filters: Vec<String>, report: Option<String>) -> RunParams {
    RunParams {
        vm: vm.to_string(),
        display: DisplayMode::Off,
        account: "1234".to_string(),
        app_package: "app.deb".to_string(),
        app_package_to_upgrade_from: None,
        gui_package: None,
        package_dir: None,
        openvpn_certificate: None,
        test_filters: filters,
        verbose: false,
        test_report: report,
        runner_dir: None,
        host: HostPair {
            api: "api.mullvad.net".to_string(),
            conncheck: "ipv4.am.i.mullvad.net".to_string(),
        },
    }
}

fn manifest() -> AppManifest {
    AppManifest {
        app_package_path: "/pkg/app.deb".to_string(),
        app_package_to_upgrade_from_path: None,
        gui_package_path: None,
    }
}

/// Drives a started pipeline up to the point where the proxy runs.
fn advance_to_proxy_started(p: Pipeline) -> (Pipeline, Action) {
    let (p, a) = p.step(Event::VmStarted);
    assert!(matches!(a, Action::ResolveManifest));
    let (p, a) = p.step(Event::ManifestResolved(manifest()));
    assert!(matches!(a, Action::Provision { .. }));
    let (p, a) = p.step(Event::ProvisionDone("/opt/testing/artifacts".to_string()));
    assert!(matches!(a, Action::ResolveBridge));
    let (p, a) = p.step(Event::BridgeResolved("172.29.1.1".to_string()));
    match &a {
        Action::StartProxy { gateway, port } => {
            assert_eq!(gateway, "172.29.1.1");
            assert_eq!(*port, SOCKS5_PORT);
        }
        other => panic!("expected StartProxy, got {:?}", other),
    }
    p.step(Event::ProxyStarted)
}

#[test]
fn absent_vm_name_fails_pipeline_with_config_not_found() {
    let store = ConfigStore::empty();
    let r = Pipeline::start(&store, registry_ab(), params("ghost", Vec::new(), None));
    match r {
        Err(PipelineError::ConfigNotFound) => {}
        _ => panic!("expected ConfigNotFound"),
    }
}

#[test]
fn absent_vm_name_fails_run_vm_with_config_not_found() {
    let store = ConfigStore::empty();
    match start_run_vm(&store, &"ghost".to_string(), None, false) {
        Err(PipelineError::ConfigNotFound) => {}
        _ => panic!("expected ConfigNotFound"),
    }
}

#[test]
fn absent_vm_name_fails_update_with_config_not_found() {
    let store = ConfigStore::empty();
    match start_update(&store, &"ghost".to_string()) {
        Err(PipelineError::ConfigNotFound) => {}
        _ => panic!("expected ConfigNotFound"),
    }
}

#[test]
fn run_vm_derives_display_from_vnc_port() {
    let store = store_with("vm1");
    let (config, opts) = start_run_vm(&store, &"vm1".to_string(), Some(5901), true).unwrap();
    assert_eq!(config.default_runner_dir, "/opt/testing");
    assert_eq!(opts.display, DisplayMode::Vnc(5901));
    assert!(opts.keep_changes);
    let (_, opts) = start_run_vm(&store, &"vm1".to_string(), None, false).unwrap();
    assert_eq!(opts.display, DisplayMode::Local);
    assert!(!opts.keep_changes);
}

#[test]
fn full_run_passes_and_frees_all_resources() {
    let store = store_with("vm1");
    let (p, a) = Pipeline::start(&store, registry_ab(), params("vm1", Vec::new(), None)).unwrap();
    assert!(matches!(a, Action::StartVm));
    let (p, a) = advance_to_proxy_started(p);
    match &a {
        Action::RunTest { index, name, skip_wait, quiet } => {
            assert_eq!(*index, 0);
            assert_eq!(name, "test_a");
            assert!(*skip_wait); // provisioning was a no-op: nothing to wait for
            assert!(*quiet);
        }
        other => panic!("expected RunTest, got {:?}", other),
    }
    let (p, a) = p.step(Event::TestCompleted(TestOutcome::Passed));
    match &a {
        Action::RunTest { index, name, .. } => {
            assert_eq!(*index, 1);
            assert_eq!(name, "test_b");
        }
        other => panic!("expected RunTest, got {:?}", other),
    }
    let (p, a) = p.step(Event::TestCompleted(TestOutcome::Passed));
    assert!(matches!(a, Action::StopProxy));
    let (p, a) = p.step(Event::ProxyStopped);
    assert!(matches!(a, Action::ReleaseVm));
    assert!(!p.proxy_running);
    let (p, a) = p.step(Event::VmReleased);
    match a {
        Action::Finish { success } => assert!(success),
        other => panic!("expected Finish, got {:?}", other),
    }
    assert_eq!(p.phase, Phase::Done);
    assert!(!p.proxy_running);
    assert!(!p.vm_running);
}

#[test]
fn failing_test_does_not_abort_remaining_tests() {
    let store = store_with("vm1");
    let (p, _) = Pipeline::start(&store, registry_ab(), params("vm1", Vec::new(), None)).unwrap();
    let (p, _) = advance_to_proxy_started(p);
    let (p, a) = p.step(Event::TestCompleted(TestOutcome::Failed("broken".to_string())));
    match &a {
        Action::RunTest { index, name, .. } => {
            assert_eq!(*index, 1);
            assert_eq!(name, "test_b");
        }
        other => panic!("first failure must not abort the run, got {:?}", other),
    }
    let (p, a) = p.step(Event::TestCompleted(TestOutcome::Passed));
    assert!(matches!(a, Action::StopProxy));
    let (p, _) = p.step(Event::ProxyStopped);
    let (p, a) = p.step(Event::VmReleased);
    match a {
        Action::Finish { success } => assert!(!success),
        other => panic!("expected Finish, got {:?}", other),
    }
    assert!(!p.proxy_running && !p.vm_running);
}

#[test]
fn unknown_test_stops_proxy_before_finishing() {
    let store = store_with("vm1");
    let filters = vec!["test_zzz".to_string()];
    let (p, _) = Pipeline::start(&store, registry_ab(), params("vm1", filters, None)).unwrap();
    let (p, a) = advance_to_proxy_started(p);
    assert!(matches!(a, Action::StopProxy));
    assert!(matches!(p.fatal, Some(PipelineError::UnknownTest(_))));
    let (p, a) = p.step(Event::ProxyStopped);
    assert!(matches!(a, Action::ReleaseVm));
    assert!(!p.proxy_running);
    let (p, a) = p.step(Event::VmReleased);
    match a {
        Action::Finish { success } => assert!(!success),
        other => panic!("expected Finish, got {:?}", other),
    }
    assert_eq!(p.phase, Phase::Done);
    assert!(!p.proxy_running && !p.vm_running);
}

#[test]
fn provisioning_failure_builds_no_context_and_runs_no_test() {
    let store = store_with("vm1");
    let report = Some("/tmp/report.json".to_string());
    let (p, _) = Pipeline::start(&store, registry_ab(), params("vm1", Vec::new(), report)).unwrap();
    let (p, _) = p.step(Event::VmStarted);
    let (p, _) = p.step(Event::ManifestResolved(manifest()));
    let (p, a) = p.step(Event::ProvisionFailed(ProvisionPhase::Install));
    assert!(matches!(a, Action::ReleaseVm));
    assert!(matches!(p.fatal, Some(PipelineError::Provisioning(ProvisionPhase::Install))));
    assert!(p.context.is_none());
    assert!(p.outcomes.is_empty());
    assert!(!p.should_write_report());
    let (p, a) = p.step(Event::VmReleased);
    match a {
        Action::Finish { success } => assert!(!success),
        other => panic!("expected Finish, got {:?}", other),
    }
    assert!(p.context.is_none());
    assert!(p.outcomes.is_empty());
}

#[test]
fn report_records_every_test_including_the_failing_diagnostic() {
    let store = store_with("vm1");
    let report = Some("/tmp/report.json".to_string());
    let (p, _) = Pipeline::start(&store, registry_ab(), params("vm1", Vec::new(), report)).unwrap();
    let (p, _) = advance_to_proxy_started(p);
    let (p, _) = p.step(Event::TestCompleted(TestOutcome::Passed));
    let (p, _) = p.step(Event::TestCompleted(TestOutcome::Failed("dns leak".to_string())));
    let (p, _) = p.step(Event::ProxyStopped);
    let (p, a) = p.step(Event::VmReleased);
    match a {
        Action::Finish { success } => assert!(!success),
        other => panic!("expected Finish, got {:?}", other),
    }
    assert!(p.should_write_report());
    let log = p.report.as_ref().expect("report was requested");
    assert_eq!(log.entries.len(), 2);
    assert_eq!(log.entries[0].test_name, "test_a");
    assert_eq!(log.entries[0].outcome, TestOutcome::Passed);
    assert_eq!(log.entries[1].test_name, "test_b");
    assert_eq!(log.entries[1].outcome, TestOutcome::Failed("dns leak".to_string()));
}

#[test]
fn local_display_waits_for_window_close_during_teardown() {
    let store = store_with("vm1");
    let mut ps = params("vm1", vec!["test_b".to_string()], None);
    ps.display = DisplayMode::Local;
    let (p, _) = Pipeline::start(&store, registry_ab(), ps).unwrap();
    let (p, a) = advance_to_proxy_started(p);
    match &a {
        Action::RunTest { name, .. } => assert_eq!(name, "test_b"),
        other => panic!("expected RunTest, got {:?}", other),
    }
    let (p, a) = p.step(Event::TestCompleted(TestOutcome::Passed));
    assert!(matches!(a, Action::StopProxy));
    let (p, a) = p.step(Event::ProxyStopped);
    assert!(matches!(a, Action::WaitForVmExit));
    let (p, a) = p.step(Event::VmExited);
    assert!(matches!(a, Action::ReleaseVm));
    let (p, a) = p.step(Event::VmReleased);
    assert!(matches!(a, Action::Finish { success: true }));
    assert_eq!(p.phase, Phase::Done);
}

#[test]
fn proxy_port_is_free_for_a_subsequent_invocation() {
    // Two runs in a row, sharing the fixed proxy port: each run stops
    // the proxy before finishing, so the next one can bind it again.
    for _ in 0..2 {
        let store = store_with("vm1");
        let (p, _) =
            Pipeline::start(&store, registry_ab(), params("vm1", Vec::new(), None)).unwrap();
        let (p, _) = advance_to_proxy_started(p);
        assert!(p.proxy_running);
        let (p, _) = p.step(Event::TestCompleted(TestOutcome::Passed));
        let (p, _) = p.step(Event::TestCompleted(TestOutcome::Passed));
        let (p, _) = p.step(Event::ProxyStopped);
        let (p, _) = p.step(Event::VmReleased);
        assert_eq!(p.phase, Phase::Done);
        assert!(!p.proxy_running, "the fixed port must be released");
    }
}

#[test]
fn vm_start_failure_is_fatal_without_teardown() {
    let store = store_with("vm1");
    let (p, _) = Pipeline::start(&store, registry_ab(), params("vm1", Vec::new(), None)).unwrap();
    let (p, a) = p.step(Event::VmStartFailed);
    assert!(matches!(a, Action::Finish { success: false }));
    assert_eq!(p.phase, Phase::Done);
    assert!(matches!(p.fatal, Some(PipelineError::VmStart)));
    assert!(!p.vm_running && !p.proxy_running);
}

#[test]
fn custom_certificate_is_loaded_before_provisioning() {
    let store = store_with("vm1");
    let mut ps = params("vm1", Vec::new(), None);
    ps.openvpn_certificate = Some("/etc/ca.crt".to_string());
    let (p, _) = Pipeline::start(&store, registry_ab(), ps).unwrap();
    let (p, _) = p.step(Event::VmStarted);
    let (p, a) = p.step(Event::ManifestResolved(manifest()));
    match &a {
        Action::LoadCertificate(path) => assert_eq!(path, "/etc/ca.crt"),
        other => panic!("expected LoadCertificate, got {:?}", other),
    }
    let (_, a) = p.step(Event::CertificateLoaded);
    match &a {
        Action::Provision { runner_dir } => assert_eq!(runner_dir, "/opt/testing"),
        other => panic!("expected Provision, got {:?}", other),
    }
}

#[test]
fn context_carries_bare_package_file_names() {
    let store = store_with("vm1");
    let (p, _) = Pipeline::start(&store, registry_ab(), params("vm1", Vec::new(), None)).unwrap();
    let (p, _) = p.step(Event::VmStarted);
    let (p, _) = p.step(Event::ManifestResolved(AppManifest {
        app_package_path: "/packages/app-2024.1.deb".to_string(),
        app_package_to_upgrade_from_path: Some("/packages/app-2023.9.deb".to_string()),
        gui_package_path: None,
    }));
    let (p, _) = p.step(Event::ProvisionDone("/opt/testing/artifacts".to_string()));
    let (p, _) = p.step(Event::BridgeResolved("172.29.1.1".to_string()));
    let ctx = p.context.as_ref().expect("context is built after the bridge resolves");
    assert_eq!(ctx.app_package_filename, "app-2024.1.deb");
    assert_eq!(
        ctx.app_package_to_upgrade_from_filename.as_deref(),
        Some("app-2023.9.deb")
    );
    assert_eq!(ctx.gui_package_filename, None);
    assert_eq!(ctx.account, "1234");
    assert_eq!(ctx.artifacts_dir, "/opt/testing/artifacts");
    assert_eq!(ctx.bridge_gateway, "172.29.1.1");
}

#[test]
fn unexpected_event_changes_nothing() {
    let store = store_with("vm1");
    let (p, _) = Pipeline::start(&store, registry_ab(), params("vm1", Vec::new(), None)).unwrap();
    let (p, a) = p.step(Event::ProxyStopped);
    assert!(matches!(a, Action::Ignore));
    assert_eq!(p.phase, Phase::ConfigResolved);
}
