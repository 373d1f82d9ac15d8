//! Provider constants and deployment configuration.
use vstd::prelude::*;

use crate::contract::BytePath;
use crate::transport::Deadline;

verus! {

/// Identifies this provider, distinct from the mounted adapter.
pub const PROVIDER_ID: &'static str = "nfs-userspace";

/// The run format this provider reads and writes.
pub const FORMAT_VERSION: u32 = 1;

/// Where runs live and how the server is reached.
#[derive(Debug, PartialEq, Eq)]
pub struct NfsUserspaceConfig {
    /// Server address.
    pub host: Vec<u8>,
    /// Server port.
    pub port: u16,
    /// Export path below the server's pseudo-root.
    pub export: BytePath,
    /// Directory holding run-id directories, below the export.
    pub run_parent: BytePath,
    /// Name of the tracee-visible root below a run.
    pub root_anchor: BytePath,
    /// Name of the control namespace below a run.
    pub control_anchor: BytePath,
    /// Deadline for one call.
    pub deadline: Deadline,
}

/// The content of a [`NfsUserspaceConfig`].
pub struct NfsUserspaceConfigView {
    /// Server address.
    pub host: Seq<u8>,
    /// Server port.
    pub port: u16,
    /// Export path below the server's pseudo-root.
    pub export: Seq<u8>,
    /// Directory holding run-id directories, below the export.
    pub run_parent: Seq<u8>,
    /// Name of the tracee-visible root below a run.
    pub root_anchor: Seq<u8>,
    /// Name of the control namespace below a run.
    pub control_anchor: Seq<u8>,
    /// Deadline for one call.
    pub deadline: Deadline,
}

impl View for NfsUserspaceConfig {
    type V = NfsUserspaceConfigView;

    open spec fn view(&self) -> NfsUserspaceConfigView {
        NfsUserspaceConfigView {
            host: self.host@,
            port: self.port,
            export: self.export@,
            run_parent: self.run_parent@,
            root_anchor: self.root_anchor@,
            control_anchor: self.control_anchor@,
            deadline: self.deadline,
        }
    }
}

} // verus!
