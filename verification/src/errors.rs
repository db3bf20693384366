//! Error kinds for the orchestration pipeline. Every stage failure is
//! tagged with the stage that produced it; the first fatal error wins
//! when the run's exit status is decided.

use vstd::prelude::*;

verus! {

/// Which provisioning step failed.
#[derive(Clone, Copy, PartialEq, Eq, Structural, Debug)]
pub enum ProvisionPhase {
    Upload,
    Install,
    ServiceStart,
}

/// A fatal pipeline error. Individual test failures are deliberately
/// not among these: they never abort the run, they only turn the final
/// exit status non-zero.
#[derive(Clone, PartialEq, Eq, Debug)]
pub enum PipelineError {
    /// The named VM configuration is not in the store.
    ConfigNotFound,
    /// The VM could not be booted.
    VmStart,
    /// Provisioning failed, tagged with the failing phase.
    Provisioning(ProvisionPhase),
    /// The app package manifest could not be resolved.
    ManifestResolution,
    /// The requested certificate could not be loaded.
    CertificateLoad,
    /// A test named in the filter is not registered; carries the name.
    UnknownTest(String),
    /// The network side channel could not be established.
    Bridge,
}

impl PipelineError {
    /// A short, stable name of the failing stage, for top-level messages.
    pub fn stage_name(&self) -> (r: String)
        ensures
            self is ConfigNotFound ==> r@ == "config not found"@,
            self is VmStart ==> r@ == "failed to start VM"@,
            self is Provisioning ==> r@ == "provisioning failed"@,
            self is ManifestResolution ==> r@ == "could not resolve app packages"@,
            self is CertificateLoad ==> r@ == "could not load certificate"@,
            self is UnknownTest ==> r@ == "unknown test"@,
            self is Bridge ==> r@ == "could not establish network bridge"@,
    {
        match self {
            PipelineError::ConfigNotFound => String::from_str("config not found"),
            PipelineError::VmStart => String::from_str("failed to start VM"),
            PipelineError::Provisioning(_) => String::from_str("provisioning failed"),
            PipelineError::ManifestResolution => String::from_str("could not resolve app packages"),
            PipelineError::CertificateLoad => String::from_str("could not load certificate"),
            PipelineError::UnknownTest(_) => String::from_str("unknown test"),
            PipelineError::Bridge => String::from_str("could not establish network bridge"),
        }
    }
}

/// An invalid command line, rejected before the pipeline starts.
#[derive(Clone, PartialEq, Eq, Debug)]
pub enum ArgsError {
    /// A local display and a VNC display were both requested.
    ConflictingDisplayArgs,
    /// The named target environment is not in the closed table.
    UnknownEnvironment(String),
}

} // verus!
