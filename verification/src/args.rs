//! The command surface: every subcommand with its (already parsed)
//! arguments, and the validation that runs before any pipeline work —
//! in particular the derivation of the display mode from the mutually
//! exclusive display/VNC flags.

use vstd::prelude::*;
use crate::config::{DisplayMode, VmConfig};
use crate::errors::ArgsError;

verus! {

/// One parsed subcommand with its arguments, as plain values.
#[derive(Clone, Debug)]
pub enum Commands {
    /// Create or edit a named VM configuration.
    SetVm { vm: String, config: VmConfig },
    /// Remove a named VM configuration.
    Remove { vm: String },
    /// List the stored VM configurations.
    List,
    /// Boot a VM without running tests.
    RunVm { vm: String, vnc: Option<u16>, keep_changes: bool },
    /// List all registered tests with their priorities.
    ListTests,
    /// Boot a VM, provision it and run the selected tests.
    RunTests {
        vm: String,
        display: bool,
        mullvad_host: Option<String>,
        vnc: Option<u16>,
        account: String,
        app_package: String,
        app_package_to_upgrade_from: Option<String>,
        gui_package: Option<String>,
        package_dir: Option<String>,
        openvpn_certificate: Option<String>,
        test_filters: Vec<String>,
        verbose: bool,
        test_report: Option<String>,
        runner_dir: Option<String>,
    },
    /// Render one or more stored report files as a combined summary.
    FormatTestReports { reports: Vec<String> },
    /// Apply OS-level updates to a running VM image.
    Update { name: String },
}

/// The VNC port of a command, when it has one.
pub open spec fn vnc_port_of(cmd: &Commands) -> Option<u16> {
    match cmd {
        Commands::RunTests { vnc, .. } => *vnc,
        Commands::RunVm { vnc, .. } => *vnc,
        _ => None,
    }
}

/// The whole parsed command line.
#[derive(Clone, Debug)]
pub struct Args {
    pub cmd: Commands,
}

impl Args {
    /// The VNC port requested by this invocation, if any: only the
    /// test-running and VM-booting commands can carry one.
    pub fn get_vnc_port(&self) -> (r: Option<u16>)
        ensures
            r == vnc_port_of(&self.cmd),
    {
        match &self.cmd {
            Commands::RunTests { vnc, .. } | Commands::RunVm { vnc, .. } => *vnc,
            _ => None,
        }
    }
}

/// Derives the display mode from the mutually exclusive display/VNC
/// inputs. Total over all four combinations: the three valid ones map
/// to their mode, and requesting both at once is rejected before the
/// pipeline runs.
pub fn derive_display_mode(display: bool, vnc: Option<u16>) -> (r: Result<DisplayMode, ArgsError>)
    ensures
        !display && vnc is None ==> r == Ok::<DisplayMode, ArgsError>(DisplayMode::Off),
        display && vnc is None ==> r == Ok::<DisplayMode, ArgsError>(DisplayMode::Local),
        vnc is Some && !display ==> r == Ok::<DisplayMode, ArgsError>(
            DisplayMode::Vnc(vnc->Some_0),
        ),
        display && vnc is Some ==> r == Err::<DisplayMode, ArgsError>(
            ArgsError::ConflictingDisplayArgs,
        ),
        r is Ok <==> !(display && vnc is Some),
{
    match (display, vnc) {
        (false, None) => Ok(DisplayMode::Off),
        (true, None) => Ok(DisplayMode::Local),
        (false, Some(port)) => Ok(DisplayMode::Vnc(port)),
        (true, Some(_)) => Err(ArgsError::ConflictingDisplayArgs),
    }
}

} // verus!
