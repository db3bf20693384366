//! The app package manifest, the certificate choice, and the
//! process-wide test context: a bundle constructed exactly once, after
//! provisioning succeeds, and read-only for the rest of the run.

use vstd::prelude::*;
use crate::config::OsKind;
use crate::hosts::HostPair;
use crate::paths::{basename_of, file_name};

verus! {

/// The resolved application packages for a run. The paths are resolved
/// by an external collaborator against the package directory; the app
/// package itself is required, the other two are optional.
#[derive(PartialEq, Eq, Debug)]
pub struct AppManifest {
    pub app_package_path: String,
    pub app_package_to_upgrade_from_path: Option<String>,
    pub gui_package_path: Option<String>,
}

/// Which CA certificate the app under test is given: the built-in
/// default, or one loaded from the path requested for the run.
#[derive(PartialEq, Eq, Debug)]
pub enum Certificate {
    BuiltIn,
    Custom(String),
}

impl Clone for Certificate {
    fn clone(&self) -> (res: Self)
        ensures
            res == *self,
    {
        match self {
            Certificate::BuiltIn => Certificate::BuiltIn,
            Certificate::Custom(path) => Certificate::Custom(path.clone()),
        }
    }
}

/// The write-once, read-only configuration bundle available to every
/// test during execution. It is constructed once by the pipeline after
/// provisioning succeeds and never mutated afterward, which is what
/// makes sharing it across the sequential test phase safe.
#[derive(PartialEq, Eq, Debug)]
pub struct TestContext {
    pub account: String,
    pub artifacts_dir: String,
    pub app_package_filename: String,
    pub app_package_to_upgrade_from_filename: Option<String>,
    pub gui_package_filename: Option<String>,
    pub host: HostPair,
    pub bridge_gateway: String,
    pub os: OsKind,
    pub certificate: Certificate,
}

impl TestContext {
    /// Builds the context from the run's inputs. The package file names
    /// are the bare file names of the manifest's resolved paths.
    pub fn new(
        account: String,
        artifacts_dir: String,
        manifest: &AppManifest,
        host: HostPair,
        bridge_gateway: String,
        os: OsKind,
        certificate: Certificate,
    ) -> (r: TestContext)
        ensures
            r.account == account,
            r.artifacts_dir == artifacts_dir,
            r.app_package_filename@ == basename_of(manifest.app_package_path@),
            (manifest.app_package_to_upgrade_from_path matches Some(p)
                ==> r.app_package_to_upgrade_from_filename matches Some(f)
                && f@ == basename_of(p@)),
            manifest.app_package_to_upgrade_from_path is None
                ==> r.app_package_to_upgrade_from_filename is None,
            (manifest.gui_package_path matches Some(p) ==> r.gui_package_filename matches Some(f)
                && f@ == basename_of(p@)),
            manifest.gui_package_path is None ==> r.gui_package_filename is None,
            r.host == host,
            r.bridge_gateway == bridge_gateway,
            r.os == os,
            r.certificate == certificate,
    {
        let upgrade_from = match &manifest.app_package_to_upgrade_from_path {
            Some(p) => Some(file_name(p)),
            None => None,
        };
        let gui = match &manifest.gui_package_path {
            Some(p) => Some(file_name(p)),
            None => None,
        };
        TestContext {
            account,
            artifacts_dir,
            app_package_filename: file_name(&manifest.app_package_path),
            app_package_to_upgrade_from_filename: upgrade_from,
            gui_package_filename: gui,
            host,
            bridge_gateway,
            os,
            certificate,
        }
    }
}

} // verus!
