//! The error taxonomy of the pipeline.
//!
//! Every stage returns its error immediately to the caller; the variant
//! identifies the failing stage, and the carried text preserves whatever
//! diagnostic the stage had (a captured stderr, a missing name).

use vstd::prelude::*;

verus! {

/// One error of the provisioning/teardown pipeline.
#[derive(Debug)]
pub enum VmError {
    /// An operation that needs the hypervisor was attempted before a
    /// connection was established.
    NotConnected,
    /// A domain or a distro profile with the given name is absent.
    NotFound(String),
    /// An external tool (disk utility, ISO mastering, hypervisor call)
    /// reported failure; the text carries its diagnostic output.
    ExternalToolFailure(String),
    /// A network transfer failed or the endpoint answered with an
    /// unusable status.
    TransferFailure(String),
    /// The integrity check reported corruption; reported only, never
    /// fatal to the artifact.
    IntegrityFailure(String),
    /// A filesystem create, write or remove failed.
    FilesystemFailure(String),
    /// An operation would have clobbered existing state and was refused
    /// before any change was made.
    PreconditionViolated(String),
}

impl VmError {
    /// The prefix that names the failing stage of this error.
    pub open spec fn spec_prefix(self) -> Seq<char> {
        match self {
            VmError::NotConnected => "not connected: "@,
            VmError::NotFound(_) => "not found: "@,
            VmError::ExternalToolFailure(_) => "external tool failure: "@,
            VmError::TransferFailure(_) => "transfer failure: "@,
            VmError::IntegrityFailure(_) => "integrity failure: "@,
            VmError::FilesystemFailure(_) => "filesystem failure: "@,
            VmError::PreconditionViolated(_) => "precondition violated: "@,
        }
    }

    /// The diagnostic text carried by this error.
    pub open spec fn spec_detail(self) -> Seq<char> {
        match self {
            VmError::NotConnected => "hypervisor connection not established"@,
            VmError::NotFound(m) => m@,
            VmError::ExternalToolFailure(m) => m@,
            VmError::TransferFailure(m) => m@,
            VmError::IntegrityFailure(m) => m@,
            VmError::FilesystemFailure(m) => m@,
            VmError::PreconditionViolated(m) => m@,
        }
    }

    /// A single line naming the failing stage and its diagnostic.
    pub fn describe(&self) -> (r: String)
        ensures
            r@ == self.spec_prefix() + self.spec_detail(),
    {
        let prefix = match self {
            VmError::NotConnected => "not connected: ",
            VmError::NotFound(_) => "not found: ",
            VmError::ExternalToolFailure(_) => "external tool failure: ",
            VmError::TransferFailure(_) => "transfer failure: ",
            VmError::IntegrityFailure(_) => "integrity failure: ",
            VmError::FilesystemFailure(_) => "filesystem failure: ",
            VmError::PreconditionViolated(_) => "precondition violated: ",
        };
        let detail: &str = match self {
            VmError::NotConnected => "hypervisor connection not established",
            VmError::NotFound(m) => m.as_str(),
            VmError::ExternalToolFailure(m) => m.as_str(),
            VmError::TransferFailure(m) => m.as_str(),
            VmError::IntegrityFailure(m) => m.as_str(),
            VmError::FilesystemFailure(m) => m.as_str(),
            VmError::PreconditionViolated(m) => m.as_str(),
        };
        let out = String::from_str(prefix);
        out.concat(detail)
    }
}

} // verus!
