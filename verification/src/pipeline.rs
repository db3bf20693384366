//! The orchestration pipeline: a state machine that sequences config
//! resolution, VM boot, provisioning, context construction, the
//! network side channel, test execution and teardown. All decisions
//! live here; the surrounding program performs each returned `Action`
//! (boot, provision, run one test, ...) and feeds the observed `Event`
//! back into `step`. Teardown runs on every path: whatever happened,
//! a pipeline that reaches `Done` has stopped the side-channel proxy —
//! freeing its fixed port for the next invocation — and released the
//! VM instance.

use vstd::prelude::*;
use crate::config::{DisplayMode, OsKind, Provisioner, VmConfig};
use crate::context::{AppManifest, Certificate, TestContext};
use crate::errors::{PipelineError, ProvisionPhase};
use crate::hosts::HostPair;
use crate::paths::basename_of;
use crate::registry::{lookup_test, registry_has, TestDescriptor};
use crate::store::{store_has, store_lookup, ConfigStore};
use crate::summary::{any_failed, SummaryEntry, SummaryLog, TestOutcome};

verus! {

/// The fixed port the side-channel proxy listens on, the same for
/// every invocation — which is why the proxy must always be stopped.
pub const SOCKS5_PORT: u16 = 1080;

/// Where the pipeline stands. `VmRunning` spans manifest resolution,
/// certificate loading and provisioning; which of those is awaited
/// shows in which of the corresponding fields are still unset. The
/// side channel counts as established once `proxy_running` holds.
#[derive(Clone, Copy, PartialEq, Eq, Structural, Debug)]
pub enum Phase {
    ConfigResolved,
    VmRunning,
    Provisioned,
    ContextInitialized,
    TestsExecuting,
    Teardown,
    Done,
}

/// What the pipeline observed of the outside world.
pub enum Event {
    VmStarted,
    VmStartFailed,
    ManifestResolved(AppManifest),
    ManifestFailed,
    CertificateLoaded,
    CertificateFailed,
    /// Provisioning succeeded; carries the artifacts directory.
    ProvisionDone(String),
    ProvisionFailed(ProvisionPhase),
    /// The bridge gateway address was resolved.
    BridgeResolved(String),
    BridgeFailed,
    ProxyStarted,
    ProxyFailed,
    TestCompleted(TestOutcome),
    ProxyStopped,
    VmExited,
    VmReleased,
}

/// What the surrounding program must do next.
#[derive(Debug)]
pub enum Action {
    StartVm,
    ResolveManifest,
    /// Load the CA certificate from the given path.
    LoadCertificate(String),
    Provision { runner_dir: String },
    ResolveBridge,
    StartProxy { gateway: String, port: u16 },
    RunTest { index: usize, name: String, skip_wait: bool, quiet: bool },
    StopProxy,
    WaitForVmExit,
    ReleaseVm,
    Finish { success: bool },
    /// The event was not the awaited one; nothing changed.
    Ignore,
}

/// The immutable inputs of one test run.
pub struct RunParams {
    pub vm: String,
    pub display: DisplayMode,
    pub account: String,
    pub app_package: String,
    pub app_package_to_upgrade_from: Option<String>,
    pub gui_package: Option<String>,
    pub package_dir: Option<String>,
    pub openvpn_certificate: Option<String>,
    pub test_filters: Vec<String>,
    pub verbose: bool,
    pub test_report: Option<String>,
    pub runner_dir: Option<String>,
    pub host: HostPair,
}

/// The pipeline's state between two events.
pub struct Pipeline {
    pub phase: Phase,
    pub params: RunParams,
    pub config: VmConfig,
    pub registry: Vec<TestDescriptor>,
    pub manifest: Option<AppManifest>,
    pub certificate: Option<Certificate>,
    pub artifacts_dir: Option<String>,
    pub gateway: Option<String>,
    pub context: Option<TestContext>,
    pub planned: Vec<TestDescriptor>,
    pub outcomes: Vec<TestOutcome>,
    pub report: Option<SummaryLog>,
    pub fatal: Option<PipelineError>,
    pub vm_running: bool,
    pub proxy_running: bool,
    pub display_wait_pending: bool,
}

/// A fatal error of a stage that precedes context construction.
pub open spec fn pre_context_error(e: PipelineError) -> bool {
    e is VmStart || e is ManifestResolution || e is CertificateLoad || e is Provisioning
}

/// The runner directory a run provisions into: the explicitly given
/// one, or the configuration's default.
pub open spec fn runner_dir_spec(p: Pipeline) -> Seq<char> {
    match p.params.runner_dir {
        Some(dir) => dir@,
        None => p.config.default_runner_dir@,
    }
}

impl Pipeline {
    /// Everything a reachable pipeline state guarantees. In
    /// particular: a finished pipeline holds no live resource; a
    /// fatal error means no test ever ran, and — for failures up to
    /// and including provisioning — that the context was never
    /// constructed; and the summary log mirrors the recorded outcomes
    /// entry by entry.
    pub open spec fn wf(self) -> bool {
        &&& self.outcomes@.len() <= self.planned@.len()
        &&& (self.report matches Some(log) ==> {
            &&& log.entries@.len() == self.outcomes@.len()
            &&& (forall|i: int|
                0 <= i < self.outcomes@.len() ==> #[trigger] log.entries@[i].outcome
                    == self.outcomes@[i] && log.entries@[i].test_name@ == self.planned@[i].name@)
        })
        &&& (self.report is Some <==> self.params.test_report is Some)
        &&& (self.fatal is Some ==> self.outcomes@.len() == 0 && self.planned@.len() == 0)
        &&& (self.fatal matches Some(e) ==> pre_context_error(e) ==> self.context is None)
        &&& (self.proxy_running ==> self.phase is TestsExecuting || self.phase is Teardown)
        &&& (self.display_wait_pending ==> self.phase is Teardown && self.fatal is None
            && self.params.display is Local)
        &&& match self.phase {
            Phase::ConfigResolved => {
                &&& !self.vm_running
                &&& !self.proxy_running
                &&& self.manifest is None
                &&& self.certificate is None
                &&& self.artifacts_dir is None
                &&& self.gateway is None
                &&& self.context is None
                &&& self.planned@.len() == 0
                &&& self.outcomes@.len() == 0
                &&& self.fatal is None
            },
            Phase::VmRunning => {
                &&& self.vm_running
                &&& !self.proxy_running
                &&& self.artifacts_dir is None
                &&& self.gateway is None
                &&& self.context is None
                &&& (self.certificate is Some ==> self.manifest is Some)
                &&& (self.certificate is None && self.manifest is Some
                    ==> self.params.openvpn_certificate is Some)
                &&& self.planned@.len() == 0
                &&& self.outcomes@.len() == 0
                &&& self.fatal is None
            },
            Phase::Provisioned => {
                &&& self.vm_running
                &&& !self.proxy_running
                &&& self.manifest is Some
                &&& self.certificate is Some
                &&& self.artifacts_dir is Some
                &&& self.gateway is None
                &&& self.context is None
                &&& self.planned@.len() == 0
                &&& self.outcomes@.len() == 0
                &&& self.fatal is None
            },
            Phase::ContextInitialized => {
                &&& self.vm_running
                &&& !self.proxy_running
                &&& self.context is Some
                &&& self.planned@.len() == 0
                &&& self.outcomes@.len() == 0
                &&& self.fatal is None
            },
            Phase::TestsExecuting => {
                &&& self.vm_running
                &&& self.proxy_running
                &&& self.context is Some
                &&& self.fatal is None
                &&& self.outcomes@.len() < self.planned@.len()
            },
            Phase::Teardown => {
                &&& self.vm_running
                &&& (self.fatal is None ==> self.outcomes@.len() == self.planned@.len())
            },
            Phase::Done => {
                &&& !self.vm_running
                &&& !self.proxy_running
            },
        }
    }

    /// Which event the pipeline is waiting for.
    pub open spec fn awaits(self, ev: Event) -> bool {
        match self.phase {
            Phase::ConfigResolved => ev is VmStarted || ev is VmStartFailed,
            Phase::VmRunning => if self.manifest is None {
                ev is ManifestResolved || ev is ManifestFailed
            } else if self.certificate is None {
                ev is CertificateLoaded || ev is CertificateFailed
            } else {
                ev is ProvisionDone || ev is ProvisionFailed
            },
            Phase::Provisioned => ev is BridgeResolved || ev is BridgeFailed,
            Phase::ContextInitialized => ev is ProxyStarted || ev is ProxyFailed,
            Phase::TestsExecuting => ev is TestCompleted,
            Phase::Teardown => if self.proxy_running {
                ev is ProxyStopped
            } else if self.display_wait_pending {
                ev is VmExited
            } else {
                ev is VmReleased
            },
            Phase::Done => false,
        }
    }

    /// Whether the run as a whole succeeded: no stage failed fatally
    /// and no executed test failed. An earlier fatal error always wins
    /// over a later test failure, since with a fatal error no test
    /// ever ran.
    pub open spec fn success_spec(self) -> bool {
        self.fatal is None && !any_failed(self.outcomes@)
    }

    /// Whether the summary log should be persisted when the run ends:
    /// only a run that was asked for a report and reached the test
    /// phase writes one.
    pub fn should_write_report(&self) -> (r: bool)
        ensures
            r == (self.report is Some && self.fatal is None),
    {
        match &self.report {
            Some(_) => match &self.fatal {
                Some(_) => false,
                None => true,
            },
            None => false,
        }
    }

    /// Looks the named configuration up and opens the pipeline. Fails
    /// with `ConfigNotFound` exactly when the store has no entry with
    /// the requested name; otherwise the pipeline is ready and the VM
    /// is to be started.
    pub fn start(store: &ConfigStore, registry: Vec<TestDescriptor>, params: RunParams) -> (r:
        Result<(Pipeline, Action), PipelineError>)
        requires
            store.wf(),
        ensures
            r is Ok <==> store_has(store.vms@, params.vm@),
            r matches Err(e) ==> e == PipelineError::ConfigNotFound,
            r matches Ok(pa) ==> {
                &&& pa.0.wf()
                &&& pa.0.phase is ConfigResolved
                &&& Some(pa.0.config) == store_lookup(store.vms@, params.vm@)
                &&& pa.0.params == params
                &&& pa.0.registry@ == registry@
                &&& (params.test_report matches Some(path) ==> pa.0.report matches Some(log)
                    && log.vm_name@ == params.vm@ && log.os == pa.0.config.os_type
                    && log.output_path == path && log.entries@.len() == 0)
                &&& pa.0.context is None
                &&& pa.0.fatal is None
                &&& pa.1 is StartVm
            },
    {
        let config = match store.get_vm(&params.vm) {
            Some(c) => c,
            None => {
                return Err(PipelineError::ConfigNotFound);
            }
        };
        let report = match &params.test_report {
            Some(path) => Some(SummaryLog::new(params.vm.clone(), config.os_type, path.clone())),
            None => None,
        };
        let pipeline = Pipeline {
            phase: Phase::ConfigResolved,
            params,
            config,
            registry,
            manifest: None,
            certificate: None,
            artifacts_dir: None,
            gateway: None,
            context: None,
            planned: Vec::new(),
            outcomes: Vec::new(),
            report,
            fatal: None,
            vm_running: false,
            proxy_running: false,
            display_wait_pending: false,
        };
        Ok((pipeline, Action::StartVm))
    }

    /// Feeds one observed event in and decides the next action. An
    /// event the pipeline is not waiting for changes nothing.
    ///
    /// One test's failure never aborts the remaining tests: after any
    /// `TestCompleted`, failed or not, the next planned test runs, and
    /// the aggregate only decides the final status. Teardown follows
    /// the test phase on every path, stopping the proxy before
    /// anything else, so the fixed port never leaks past the run.
    pub fn step(self, event: Event) -> (r: (Pipeline, Action))
        requires
            self.wf(),
        ensures
            r.0.wf(),
            r.0.params == self.params,
            r.0.config == self.config,
            r.0.registry@ == self.registry@,
            !self.awaits(event) ==> r.0 == self && r.1 is Ignore,
            self.fatal is Some ==> r.0.fatal == self.fatal,
            self.context is Some ==> r.0.context == self.context,
            // boot
            self.phase is ConfigResolved && event is VmStarted ==> r.0.phase is VmRunning
                && r.0.vm_running && r.1 is ResolveManifest,
            self.phase is ConfigResolved && event is VmStartFailed ==> r.0.phase is Done
                && r.0.fatal == Some(PipelineError::VmStart) && (r.1 matches Action::Finish {
                success,
            } && !success),
            // manifest
            self.phase is VmRunning && self.manifest is None && event is ManifestResolved ==> {
                &&& r.0.phase is VmRunning
                &&& r.0.manifest == Some(event->ManifestResolved_0)
                &&& (self.params.openvpn_certificate matches Some(path)
                    ==> r.0.certificate is None && (r.1 matches Action::LoadCertificate(p)
                    && p@ == path@))
                &&& (self.params.openvpn_certificate is None ==> r.0.certificate == Some(
                    Certificate::BuiltIn,
                ) && (r.1 matches Action::Provision { runner_dir } && runner_dir@
                    == runner_dir_spec(self)))
            },
            self.phase is VmRunning && self.manifest is None && event is ManifestFailed ==> r.0.fatal
                == Some(PipelineError::ManifestResolution) && r.0.phase is Teardown
                && r.0.context is None && r.1 is ReleaseVm,
            // certificate
            self.phase is VmRunning && self.manifest is Some && self.certificate is None
                && event is CertificateLoaded ==> (r.0.certificate matches Some(c) && (c matches
            Certificate::Custom(p) && p@ == self.params.openvpn_certificate->Some_0@))
                && (r.1 matches Action::Provision { runner_dir } && runner_dir@
                    == runner_dir_spec(self)),
            self.phase is VmRunning && self.manifest is Some && self.certificate is None
                && event is CertificateFailed ==> r.0.fatal == Some(PipelineError::CertificateLoad)
                && r.0.phase is Teardown && r.0.context is None && r.1 is ReleaseVm,
            // provisioning
            self.phase is VmRunning && self.manifest is Some && self.certificate is Some
                && event is ProvisionDone ==> r.0.phase is Provisioned && (r.0.artifacts_dir matches
            Some(d) && d@ == event->ProvisionDone_0@) && r.1 is ResolveBridge,
            self.phase is VmRunning && self.manifest is Some && self.certificate is Some
                && event is ProvisionFailed ==> r.0.fatal == Some(
                PipelineError::Provisioning(event->ProvisionFailed_0),
            ) && r.0.phase is Teardown && r.0.context is None && r.0.outcomes@.len() == 0
                && r.1 is ReleaseVm,
            // bridge and context
            self.phase is Provisioned && event is BridgeResolved ==> {
                &&& r.0.phase is ContextInitialized
                &&& (r.0.gateway matches Some(g) && g@ == event->BridgeResolved_0@)
                &&& (r.0.context matches Some(ctx) && {
                    &&& ctx.account@ == self.params.account@
                    &&& ctx.artifacts_dir@ == self.artifacts_dir->Some_0@
                    &&& ctx.app_package_filename@ == basename_of(
                        self.manifest->Some_0.app_package_path@,
                    )
                    &&& (self.manifest->Some_0.app_package_to_upgrade_from_path matches Some(pth)
                        ==> (ctx.app_package_to_upgrade_from_filename matches Some(f) && f@
                        == basename_of(pth@)))
                    &&& (self.manifest->Some_0.gui_package_path matches Some(pth)
                        ==> (ctx.gui_package_filename matches Some(f) && f@ == basename_of(pth@)))
                    &&& ctx.host == self.params.host
                    &&& ctx.bridge_gateway@ == event->BridgeResolved_0@
                    &&& ctx.os == self.config.os_type
                    &&& ctx.certificate == self.certificate->Some_0
                })
                &&& (r.1 matches Action::StartProxy { gateway, port } && gateway@
                    == event->BridgeResolved_0@ && port == SOCKS5_PORT)
            },
            self.phase is Provisioned && event is BridgeFailed ==> r.0.fatal == Some(
                PipelineError::Bridge,
            ) && r.0.phase is Teardown && r.1 is ReleaseVm,
            // proxy and test selection
            self.phase is ContextInitialized && event is ProxyStarted ==> {
                &&& r.0.proxy_running
                &&& (self.params.test_filters@.len() == 0 ==> r.0.planned@ == self.registry@
                    && r.0.fatal is None)
                &&& ((forall|i: int|
                    0 <= i < self.params.test_filters@.len() ==> registry_has(
                        self.registry@,
                        self.params.test_filters@[i]@,
                    )) ==> r.0.fatal is None && r.0.planned@.len()
                    == if self.params.test_filters@.len() == 0 {
                    self.registry@.len()
                } else {
                    self.params.test_filters@.len()
                })
                &&& (self.params.test_filters@.len() > 0 && r.0.fatal is None ==> forall|i: int|
                    0 <= i < self.params.test_filters@.len() ==> lookup_test(
                        self.registry@,
                        self.params.test_filters@[i]@,
                    ) == Some(#[trigger] r.0.planned@[i]))
                &&& ((exists|i: int|
                    0 <= i < self.params.test_filters@.len() && !registry_has(
                        self.registry@,
                        self.params.test_filters@[i]@,
                    )) ==> (r.0.fatal matches Some(e) && e is UnknownTest) && r.0.phase is Teardown
                    && r.1 is StopProxy)
                &&& (r.0.fatal is None && r.0.planned@.len() > 0 ==> r.0.phase is TestsExecuting
                    && (r.1 matches Action::RunTest { index, name, skip_wait, quiet } && index == 0
                    && name@ == r.0.planned@[0].name@ && skip_wait == (self.config.provisioner
                        is Noop) && quiet == !self.params.verbose))
                &&& (r.0.fatal is None && r.0.planned@.len() == 0 ==> r.0.phase is Teardown
                    && r.1 is StopProxy)
            },
            self.phase is ContextInitialized && event is ProxyFailed ==> r.0.fatal == Some(
                PipelineError::Bridge,
            ) && r.0.phase is Teardown && !r.0.proxy_running && r.1 is ReleaseVm,
            // test execution: a failure never aborts the remaining tests
            self.phase is TestsExecuting && event is TestCompleted ==> {
                &&& r.0.outcomes@ == self.outcomes@.push(event->TestCompleted_0)
                &&& (self.report matches Some(log) ==> r.0.report matches Some(log2)
                    && log2.entries@ == log.entries@.push(
                    (SummaryEntry {
                        test_name: self.planned@[self.outcomes@.len() as int].name,
                        outcome: event->TestCompleted_0,
                    }),
                ))
                &&& (self.outcomes@.len() + 1 < self.planned@.len() ==> r.0.phase
                    is TestsExecuting && (r.1 matches Action::RunTest { index, name, .. } && index
                    == self.outcomes@.len() + 1 && name@ == self.planned@[self.outcomes@.len()
                    as int + 1].name@))
                &&& (self.outcomes@.len() + 1 == self.planned@.len() ==> r.0.phase is Teardown
                    && r.1 is StopProxy)
            },
            // teardown, in order: proxy, optional display wait, release
            self.phase is Teardown && self.proxy_running && event is ProxyStopped ==> {
                &&& !r.0.proxy_running
                &&& r.0.phase is Teardown
                &&& (r.0.display_wait_pending ==> r.1 is WaitForVmExit)
                &&& (!r.0.display_wait_pending ==> r.1 is ReleaseVm)
            },
            self.phase is Teardown && !self.proxy_running && self.display_wait_pending
                && event is VmExited ==> r.0.phase is Teardown && !r.0.display_wait_pending
                && r.1 is ReleaseVm,
            self.phase is Teardown && !self.proxy_running && !self.display_wait_pending
                && event is VmReleased ==> r.0.phase is Done && !r.0.vm_running
                && (r.1 matches Action::Finish { success } && success == self.success_spec())
                && r.0.outcomes@ == self.outcomes@,
    {
        let mut p = self;
        match (p.phase, event) {
            (Phase::ConfigResolved, Event::VmStarted) => {
                p.phase = Phase::VmRunning;
                p.vm_running = true;
                (p, Action::ResolveManifest)
            }
            (Phase::ConfigResolved, Event::VmStartFailed) => {
                p.fatal = Some(PipelineError::VmStart);
                p.phase = Phase::Done;
                (p, Action::Finish { success: false })
            }
            (Phase::VmRunning, Event::ManifestResolved(m)) if p.manifest.is_none() => {
                p.manifest = Some(m);
                match &p.params.openvpn_certificate {
                    Some(path) => {
                        let path2 = path.clone();
                        (p, Action::LoadCertificate(path2))
                    }
                    None => {
                        p.certificate = Some(Certificate::BuiltIn);
                        let runner_dir = crate::config::resolve_runner_dir(
                            clone_opt_string(&p.params.runner_dir),
                            &p.config,
                        );
                        (p, Action::Provision { runner_dir })
                    }
                }
            }
            (Phase::VmRunning, Event::ManifestFailed) if p.manifest.is_none() => {
                p.fatal = Some(PipelineError::ManifestResolution);
                p.phase = Phase::Teardown;
                (p, Action::ReleaseVm)
            }
            (Phase::VmRunning, Event::CertificateLoaded) if p.manifest.is_some()
                && p.certificate.is_none() => {
                let path = match &p.params.openvpn_certificate {
                    Some(path) => path.clone(),
                    None => {
                        // A certificate is only awaited when a path was given.
                        proof {
                            assert(false);
                        }
                        String::new()
                    }
                };
                p.certificate = Some(Certificate::Custom(path));
                let runner_dir = crate::config::resolve_runner_dir(
                    clone_opt_string(&p.params.runner_dir),
                    &p.config,
                );
                (p, Action::Provision { runner_dir })
            }
            (Phase::VmRunning, Event::CertificateFailed) if p.manifest.is_some()
                && p.certificate.is_none() => {
                p.fatal = Some(PipelineError::CertificateLoad);
                p.phase = Phase::Teardown;
                (p, Action::ReleaseVm)
            }
            (Phase::VmRunning, Event::ProvisionDone(dir)) if p.manifest.is_some()
                && p.certificate.is_some() => {
                p.artifacts_dir = Some(dir);
                p.phase = Phase::Provisioned;
                (p, Action::ResolveBridge)
            }
            (Phase::VmRunning, Event::ProvisionFailed(ph)) if p.manifest.is_some()
                && p.certificate.is_some() => {
                p.fatal = Some(PipelineError::Provisioning(ph));
                p.phase = Phase::Teardown;
                (p, Action::ReleaseVm)
            }
            (Phase::Provisioned, Event::BridgeResolved(gw)) => {
                let ctx = match (&p.manifest, &p.certificate, &p.artifacts_dir) {
                    (Some(m), Some(c), Some(d)) => TestContext::new(
                        p.params.account.clone(),
                        d.clone(),
                        m,
                        p.params.host.clone(),
                        gw.clone(),
                        p.config.os_type,
                        c.clone(),
                    ),
                    _ => {
                        // A provisioned pipeline holds all three values.
                        proof {
                            assert(false);
                        }
                        return (p, Action::Ignore);
                    }
                };
                p.context = Some(ctx);
                p.gateway = Some(gw.clone());
                p.phase = Phase::ContextInitialized;
                (p, Action::StartProxy { gateway: gw, port: SOCKS5_PORT })
            }
            (Phase::Provisioned, Event::BridgeFailed) => {
                p.fatal = Some(PipelineError::Bridge);
                p.phase = Phase::Teardown;
                (p, Action::ReleaseVm)
            }
            (Phase::ContextInitialized, Event::ProxyStarted) => {
                p.proxy_running = true;
                match crate::registry::get_filtered_tests(&p.registry, &p.params.test_filters) {
                    Ok(ts) => {
                        p.planned = ts;
                        if p.planned.len() > 0 {
                            p.phase = Phase::TestsExecuting;
                            let name = p.planned[0].name.clone();
                            let skip_wait = p.config.provisioner.is_noop();
                            let quiet = !p.params.verbose;
                            (p, Action::RunTest { index: 0, name, skip_wait, quiet })
                        } else {
                            p.phase = Phase::Teardown;
                            p.display_wait_pending = match p.params.display {
                                DisplayMode::Local => true,
                                _ => false,
                            };
                            (p, Action::StopProxy)
                        }
                    }
                    Err(e) => {
                        p.fatal = Some(e);
                        p.phase = Phase::Teardown;
                        (p, Action::StopProxy)
                    }
                }
            }
            (Phase::ContextInitialized, Event::ProxyFailed) => {
                p.fatal = Some(PipelineError::Bridge);
                p.phase = Phase::Teardown;
                (p, Action::ReleaseVm)
            }
            (Phase::TestsExecuting, Event::TestCompleted(outcome)) => {
                let idx = p.outcomes.len();
                match &mut p.report {
                    Some(log) => {
                        log.record(p.planned[idx].name.clone(), outcome.clone());
                    }
                    None => {}
                }
                p.outcomes.push(outcome);
                if p.outcomes.len() < p.planned.len() {
                    let next = p.outcomes.len();
                    let name = p.planned[next].name.clone();
                    let skip_wait = p.config.provisioner.is_noop();
                    let quiet = !p.params.verbose;
                    (p, Action::RunTest { index: next, name, skip_wait, quiet })
                } else {
                    p.phase = Phase::Teardown;
                    p.display_wait_pending = match p.params.display {
                        DisplayMode::Local => true,
                        _ => false,
                    };
                    (p, Action::StopProxy)
                }
            }
            (Phase::Teardown, Event::ProxyStopped) if p.proxy_running => {
                p.proxy_running = false;
                if p.display_wait_pending {
                    (p, Action::WaitForVmExit)
                } else {
                    (p, Action::ReleaseVm)
                }
            }
            (Phase::Teardown, Event::VmExited) if !p.proxy_running && p.display_wait_pending => {
                p.display_wait_pending = false;
                (p, Action::ReleaseVm)
            }
            (Phase::Teardown, Event::VmReleased) if !p.proxy_running
                && !p.display_wait_pending => {
                p.vm_running = false;
                p.phase = Phase::Done;
                let success = match &p.fatal {
                    Some(_) => false,
                    None => crate::summary::aggregate_success(&p.outcomes),
                };
                (p, Action::Finish { success })
            }
            _ => (p, Action::Ignore),
        }
    }
}

/// A copy of an optional string, pinned value for value.
fn clone_opt_string(s: &Option<String>) -> (r: Option<String>)
    ensures
        r == *s,
{
    match s {
        Some(v) => Some(v.clone()),
        None => None,
    }
}

/// Opens a VM for interactive use, without tests: fails with
/// `ConfigNotFound` exactly when the name is absent from the store,
/// and otherwise yields the configuration together with the runtime
/// overlay (display always on, VNC when a port was given).
pub fn start_run_vm(store: &ConfigStore, vm: &String, vnc: Option<u16>, keep_changes: bool) -> (r:
    Result<(VmConfig, crate::config::RuntimeOptions), PipelineError>)
    requires
        store.wf(),
    ensures
        r is Ok <==> store_has(store.vms@, vm@),
        r matches Err(e) ==> e == PipelineError::ConfigNotFound,
        r matches Ok(co) ==> {
            &&& Some(co.0) == store_lookup(store.vms@, vm@)
            &&& co.1.keep_changes == keep_changes
            &&& (vnc matches Some(port) ==> co.1.display == DisplayMode::Vnc(port))
            &&& (vnc is None ==> co.1.display == DisplayMode::Local)
        },
{
    match store.get_vm(vm) {
        Some(config) => Ok((config, crate::config::RuntimeOptions::for_run_vm(vnc, keep_changes))),
        None => Err(PipelineError::ConfigNotFound),
    }
}

/// Opens a VM for an OS-level update run: fails with `ConfigNotFound`
/// exactly when the name is absent from the store.
pub fn start_update(store: &ConfigStore, name: &String) -> (r: Result<VmConfig, PipelineError>)
    requires
        store.wf(),
    ensures
        r is Ok <==> store_has(store.vms@, name@),
        r matches Err(e) ==> e == PipelineError::ConfigNotFound,
        r matches Ok(c) ==> Some(c) == store_lookup(store.vms@, name@),
{
    match store.get_vm(name) {
        Some(config) => Ok(config),
        None => Err(PipelineError::ConfigNotFound),
    }
}

/// After any run — success, stage failure or test failures — a
/// finished pipeline holds no live resource: the side-channel proxy
/// was stopped, so its fixed port is free for the next invocation,
/// and the VM instance was released.
pub proof fn lemma_finished_run_releases_resources(p: Pipeline)
    requires
        p.wf(),
        p.phase is Done,
    ensures
        !p.proxy_running,
        !p.vm_running,
{
}

/// A finished pipeline is terminal: it waits for no further event, so
/// the VM instance it released and the proxy it stopped are never
/// touched again — each resource is acquired and released once.
pub proof fn lemma_done_is_terminal(p: Pipeline, ev: Event)
    requires
        p.wf(),
        p.phase is Done,
    ensures
        !p.awaits(ev),
{
}

/// A fatal stage error means the run never entered the test phase: no
/// outcome was recorded, the summary log (if any) stayed empty, and —
/// for a failure up to and including provisioning — the test context
/// was never constructed.
pub proof fn lemma_fatal_means_no_tests(p: Pipeline)
    requires
        p.wf(),
        p.fatal is Some,
    ensures
        p.outcomes@.len() == 0,
        p.report matches Some(log) ==> log.entries@.len() == 0,
        pre_context_error(p.fatal->Some_0) ==> p.context is None,
{
}

/// The summary log mirrors the executed tests one to one: entry `i`
/// names the `i`-th planned test and carries exactly its outcome — in
/// particular, a failing test's entry (with its diagnostic) is always
/// present.
pub proof fn lemma_report_mirrors_outcomes(p: Pipeline)
    requires
        p.wf(),
        p.report is Some,
    ensures
        p.report->Some_0.entries@.len() == p.outcomes@.len(),
        forall|i: int|
            0 <= i < p.outcomes@.len() ==> #[trigger] p.report->Some_0.entries@[i].outcome
                == p.outcomes@[i] && p.report->Some_0.entries@[i].test_name@
                == p.planned@[i].name@,
{
}

} // verus!
