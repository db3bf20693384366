//! Core configuration data: operating-system kind, provisioner kind,
//! display mode and the per-VM configuration record.

use vstd::prelude::*;

verus! {

/// Operating system running inside the guest VM.
#[derive(Clone, Copy, PartialEq, Eq, Structural, Debug)]
pub enum OsKind {
    Linux,
    Windows,
    Macos,
}

/// How a booted VM is provisioned with the test runner and app packages.
///
/// `Ssh` runs remote commands with the stored credentials; `Noop` assumes
/// the runner is pre-baked into the VM image.
#[derive(PartialEq, Eq, Debug)]
pub enum Provisioner {
    Ssh { user: String, password: String },
    Noop,
}

impl Clone for Provisioner {
    fn clone(&self) -> (res: Self)
        ensures
            res == *self,
    {
        match self {
            Provisioner::Ssh { user, password } => Provisioner::Ssh {
                user: user.clone(),
                password: password.clone(),
            },
            Provisioner::Noop => Provisioner::Noop,
        }
    }
}

impl Provisioner {
    /// True exactly for the `Noop` variant.
    pub fn is_noop(&self) -> (r: bool)
        ensures
            r == (self is Noop),
    {
        match self {
            Provisioner::Noop => true,
            Provisioner::Ssh { .. } => false,
        }
    }
}

/// How (and whether) the guest's display is shown during a run.
#[derive(Clone, Copy, PartialEq, Eq, Structural, Debug)]
pub enum DisplayMode {
    /// No display surface is shown.
    Off,
    /// A local window shows the guest display.
    Local,
    /// A VNC server is exposed on the given port.
    Vnc(u16),
}

/// Ephemeral per-run options, applied to a cloned configuration and
/// never persisted.
#[derive(Clone, PartialEq, Eq, Structural, Debug)]
pub struct RuntimeOptions {
    pub display: DisplayMode,
    pub keep_changes: bool,
}

impl RuntimeOptions {
    /// Options for booting a VM without running tests: the display is
    /// always shown, over VNC when a port is given and locally otherwise.
    pub fn for_run_vm(vnc: Option<u16>, keep_changes: bool) -> (r: RuntimeOptions)
        ensures
            r.keep_changes == keep_changes,
            vnc matches Some(port) ==> r.display == DisplayMode::Vnc(port),
            vnc is None ==> r.display == DisplayMode::Local,
    {
        RuntimeOptions {
            display: match vnc {
                Some(port) => DisplayMode::Vnc(port),
                None => DisplayMode::Local,
            },
            keep_changes,
        }
    }
}

/// A persisted, named VM configuration. Read-only during a run; edited
/// only through the explicit store operations.
#[derive(PartialEq, Eq, Debug)]
pub struct VmConfig {
    pub os_type: OsKind,
    pub provisioner: Provisioner,
    /// Directory inside the guest where the test runner is installed
    /// when no explicit runner directory is given for the run.
    pub default_runner_dir: String,
}

impl Clone for VmConfig {
    fn clone(&self) -> (res: Self)
        ensures
            res == *self,
    {
        VmConfig {
            os_type: self.os_type,
            provisioner: self.provisioner.clone(),
            default_runner_dir: self.default_runner_dir.clone(),
        }
    }
}

/// The runner directory to use for a run: the explicitly requested one
/// when present, the configuration's default otherwise.
pub fn resolve_runner_dir(requested: Option<String>, config: &VmConfig) -> (r: String)
    ensures
        requested matches Some(dir) ==> r == dir,
        requested is None ==> r@ == config.default_runner_dir@,
{
    match requested {
        Some(dir) => dir,
        None => config.default_runner_dir.clone(),
    }
}

} // verus!
