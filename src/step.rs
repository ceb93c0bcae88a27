//! The provisioning steps: each a named, described unit of work. The kinds form
//! a closed set; each kind also has a type of its own for building registries.
use vstd::prelude::*;

verus! {

/// Which step a registry entry is.
#[derive(PartialEq, Eq, Structural, Clone, Copy, Debug)]
pub enum StepKind {
    TmuxInstall,
    UserDataVerification,
    JwtSecret,
    OsTypeDetection,
    HomeDirSetup,
    PythonTools,
    VenvCreation,
    PythonPath,
    LibpqDev,
    Websockify,
    Libvirt,
    LibvirtPython,
    StorageRequirements,
    Wheel,
    PythonRequirements,
    PreCommit,
    PostgresqlSupport,
    OpenVSwitch,
    Multipath,
    ChangeOwner,
    ArchDetection,
}

impl StepKind {
    /// The step's short identifier.
    pub open spec fn spec_name(self) -> Seq<char> {
        match self {
            StepKind::TmuxInstall => "TmuxInstall"@,
            StepKind::UserDataVerification => "UserDataVerification"@,
            StepKind::JwtSecret => "JwtSecret"@,
            StepKind::OsTypeDetection => "OsTypeDetection"@,
            StepKind::HomeDirSetup => "HomeDirSetup"@,
            StepKind::PythonTools => "PythonTools"@,
            StepKind::VenvCreation => "VenvCreation"@,
            StepKind::PythonPath => "PythonPath"@,
            StepKind::LibpqDev => "LibpqDev"@,
            StepKind::Websockify => "Websockify"@,
            StepKind::Libvirt => "Libvirt"@,
            StepKind::LibvirtPython => "LibvirtPython"@,
            StepKind::StorageRequirements => "StorageRequirements"@,
            StepKind::Wheel => "Wheel"@,
            StepKind::PythonRequirements => "PythonRequirements"@,
            StepKind::PreCommit => "PreCommit"@,
            StepKind::PostgresqlSupport => "PostgresqlSupport"@,
            StepKind::OpenVSwitch => "OpenVSwitch"@,
            StepKind::Multipath => "Multipath"@,
            StepKind::ChangeOwner => "ChangeOwner"@,
            StepKind::ArchDetection => "ArchDetection"@,
        }
    }

    /// The step's human-readable summary.
    pub open spec fn spec_description(self) -> Seq<char> {
        match self {
            StepKind::TmuxInstall => "Install and configure tmux session manager"@,
            StepKind::UserDataVerification => "Verify user credentials from configuration"@,
            StepKind::JwtSecret => "Generate and configure JWT secret"@,
            StepKind::OsTypeDetection => "Detect operating system type"@,
            StepKind::HomeDirSetup => "Create and configure home directories"@,
            StepKind::PythonTools => "Install Python virtual environment and pip"@,
            StepKind::VenvCreation => "Create Python virtual environment"@,
            StepKind::PythonPath => "Configure PYTHONPATH in virtual environment"@,
            StepKind::LibpqDev => "Install PostgreSQL development libraries"@,
            StepKind::Websockify => "Install Python websockify for VNC proxy"@,
            StepKind::Libvirt => "Install libvirt virtualization support"@,
            StepKind::LibvirtPython => "Install libvirt Python bindings"@,
            StepKind::StorageRequirements => "Install storage and NFS support packages"@,
            StepKind::Wheel => "Install Python wheel package"@,
            StepKind::PythonRequirements => "Install Python project requirements"@,
            StepKind::PreCommit => "Install and configure pre-commit hooks"@,
            StepKind::PostgresqlSupport => "Install PostgreSQL database support"@,
            StepKind::OpenVSwitch => "Install and configure Open vSwitch networking"@,
            StepKind::Multipath => "Install multipath I/O tools"@,
            StepKind::ChangeOwner => "Change project ownership to the specified user"@,
            StepKind::ArchDetection => "Detect system architecture for binary downloads"@,
        }
    }

    pub fn name(&self) -> (r: &'static str)
        ensures
            r@ == self.spec_name(),
    {
        match self {
            StepKind::TmuxInstall => "TmuxInstall",
            StepKind::UserDataVerification => "UserDataVerification",
            StepKind::JwtSecret => "JwtSecret",
            StepKind::OsTypeDetection => "OsTypeDetection",
            StepKind::HomeDirSetup => "HomeDirSetup",
            StepKind::PythonTools => "PythonTools",
            StepKind::VenvCreation => "VenvCreation",
            StepKind::PythonPath => "PythonPath",
            StepKind::LibpqDev => "LibpqDev",
            StepKind::Websockify => "Websockify",
            StepKind::Libvirt => "Libvirt",
            StepKind::LibvirtPython => "LibvirtPython",
            StepKind::StorageRequirements => "StorageRequirements",
            StepKind::Wheel => "Wheel",
            StepKind::PythonRequirements => "PythonRequirements",
            StepKind::PreCommit => "PreCommit",
            StepKind::PostgresqlSupport => "PostgresqlSupport",
            StepKind::OpenVSwitch => "OpenVSwitch",
            StepKind::Multipath => "Multipath",
            StepKind::ChangeOwner => "ChangeOwner",
            StepKind::ArchDetection => "ArchDetection",
        }
    }

    pub fn description(&self) -> (r: &'static str)
        ensures
            r@ == self.spec_description(),
    {
        match self {
            StepKind::TmuxInstall => "Install and configure tmux session manager",
            StepKind::UserDataVerification => "Verify user credentials from configuration",
            StepKind::JwtSecret => "Generate and configure JWT secret",
            StepKind::OsTypeDetection => "Detect operating system type",
            StepKind::HomeDirSetup => "Create and configure home directories",
            StepKind::PythonTools => "Install Python virtual environment and pip",
            StepKind::VenvCreation => "Create Python virtual environment",
            StepKind::PythonPath => "Configure PYTHONPATH in virtual environment",
            StepKind::LibpqDev => "Install PostgreSQL development libraries",
            StepKind::Websockify => "Install Python websockify for VNC proxy",
            StepKind::Libvirt => "Install libvirt virtualization support",
            StepKind::LibvirtPython => "Install libvirt Python bindings",
            StepKind::StorageRequirements => "Install storage and NFS support packages",
            StepKind::Wheel => "Install Python wheel package",
            StepKind::PythonRequirements => "Install Python project requirements",
            StepKind::PreCommit => "Install and configure pre-commit hooks",
            StepKind::PostgresqlSupport => "Install PostgreSQL database support",
            StepKind::OpenVSwitch => "Install and configure Open vSwitch networking",
            StepKind::Multipath => "Install multipath I/O tools",
            StepKind::ChangeOwner => "Change project ownership to the specified user",
            StepKind::ArchDetection => "Detect system architecture for binary downloads",
        }
    }
}

/// A unit of provisioning work: which step it is, its name and its description.
/// Doing the work touches the host, so it is carried out by the caller for the
/// step's kind, between the sequencer's `next_action` and `record`.
pub trait InstallerStep {
    spec fn spec_kind(&self) -> StepKind;

    fn kind(&self) -> (r: StepKind)
        ensures
            r == self.spec_kind(),
    ;

    fn name(&self) -> (r: &'static str)
        ensures
            r@ == self.spec_kind().spec_name(),
    {
        self.kind().name()
    }

    fn description(&self) -> (r: &'static str)
        ensures
            r@ == self.spec_kind().spec_description(),
    {
        self.kind().description()
    }
}

#[derive(Default, Clone, Copy, Debug)]
pub struct TmuxInstallStep;

impl InstallerStep for TmuxInstallStep {
    open spec fn spec_kind(&self) -> StepKind {
        StepKind::TmuxInstall
    }

    fn kind(&self) -> (r: StepKind) {
        StepKind::TmuxInstall
    }
}

#[derive(Default, Clone, Copy, Debug)]
pub struct UserDataVerificationStep;

impl InstallerStep for UserDataVerificationStep {
    open spec fn spec_kind(&self) -> StepKind {
        StepKind::UserDataVerification
    }

    fn kind(&self) -> (r: StepKind) {
        StepKind::UserDataVerification
    }
}

#[derive(Default, Clone, Copy, Debug)]
pub struct JwtSecretStep;

impl InstallerStep for JwtSecretStep {
    open spec fn spec_kind(&self) -> StepKind {
        StepKind::JwtSecret
    }

    fn kind(&self) -> (r: StepKind) {
        StepKind::JwtSecret
    }
}

#[derive(Default, Clone, Copy, Debug)]
pub struct OsTypeDetectionStep;

impl InstallerStep for OsTypeDetectionStep {
    open spec fn spec_kind(&self) -> StepKind {
        StepKind::OsTypeDetection
    }

    fn kind(&self) -> (r: StepKind) {
        StepKind::OsTypeDetection
    }
}

#[derive(Default, Clone, Copy, Debug)]
pub struct HomeDirSetupStep;

impl InstallerStep for HomeDirSetupStep {
    open spec fn spec_kind(&self) -> StepKind {
        StepKind::HomeDirSetup
    }

    fn kind(&self) -> (r: StepKind) {
        StepKind::HomeDirSetup
    }
}

#[derive(Default, Clone, Copy, Debug)]
pub struct PythonToolsStep;

impl InstallerStep for PythonToolsStep {
    open spec fn spec_kind(&self) -> StepKind {
        StepKind::PythonTools
    }

    fn kind(&self) -> (r: StepKind) {
        StepKind::PythonTools
    }
}

#[derive(Default, Clone, Copy, Debug)]
pub struct VenvCreationStep;

impl InstallerStep for VenvCreationStep {
    open spec fn spec_kind(&self) -> StepKind {
        StepKind::VenvCreation
    }

    fn kind(&self) -> (r: StepKind) {
        StepKind::VenvCreation
    }
}

#[derive(Default, Clone, Copy, Debug)]
pub struct PythonPathStep;

impl InstallerStep for PythonPathStep {
    open spec fn spec_kind(&self) -> StepKind {
        StepKind::PythonPath
    }

    fn kind(&self) -> (r: StepKind) {
        StepKind::PythonPath
    }
}

#[derive(Default, Clone, Copy, Debug)]
pub struct LibpqDevStep;

impl InstallerStep for LibpqDevStep {
    open spec fn spec_kind(&self) -> StepKind {
        StepKind::LibpqDev
    }

    fn kind(&self) -> (r: StepKind) {
        StepKind::LibpqDev
    }
}

#[derive(Default, Clone, Copy, Debug)]
pub struct WebsockifyStep;

impl InstallerStep for WebsockifyStep {
    open spec fn spec_kind(&self) -> StepKind {
        StepKind::Websockify
    }

    fn kind(&self) -> (r: StepKind) {
        StepKind::Websockify
    }
}

#[derive(Default, Clone, Copy, Debug)]
pub struct LibvirtStep;

impl InstallerStep for LibvirtStep {
    open spec fn spec_kind(&self) -> StepKind {
        StepKind::Libvirt
    }

    fn kind(&self) -> (r: StepKind) {
        StepKind::Libvirt
    }
}

#[derive(Default, Clone, Copy, Debug)]
pub struct LibvirtPythonStep;

impl InstallerStep for LibvirtPythonStep {
    open spec fn spec_kind(&self) -> StepKind {
        StepKind::LibvirtPython
    }

    fn kind(&self) -> (r: StepKind) {
        StepKind::LibvirtPython
    }
}

#[derive(Default, Clone, Copy, Debug)]
pub struct StorageRequirementsStep;

impl InstallerStep for StorageRequirementsStep {
    open spec fn spec_kind(&self) -> StepKind {
        StepKind::StorageRequirements
    }

    fn kind(&self) -> (r: StepKind) {
        StepKind::StorageRequirements
    }
}

#[derive(Default, Clone, Copy, Debug)]
pub struct WheelStep;

impl InstallerStep for WheelStep {
    open spec fn spec_kind(&self) -> StepKind {
        StepKind::Wheel
    }

    fn kind(&self) -> (r: StepKind) {
        StepKind::Wheel
    }
}

#[derive(Default, Clone, Copy, Debug)]
pub struct PythonRequirementsStep;

impl InstallerStep for PythonRequirementsStep {
    open spec fn spec_kind(&self) -> StepKind {
        StepKind::PythonRequirements
    }

    fn kind(&self) -> (r: StepKind) {
        StepKind::PythonRequirements
    }
}

#[derive(Default, Clone, Copy, Debug)]
pub struct PreCommitStep;

impl InstallerStep for PreCommitStep {
    open spec fn spec_kind(&self) -> StepKind {
        StepKind::PreCommit
    }

    fn kind(&self) -> (r: StepKind) {
        StepKind::PreCommit
    }
}

#[derive(Default, Clone, Copy, Debug)]
pub struct PostgresqlSupportStep;

impl InstallerStep for PostgresqlSupportStep {
    open spec fn spec_kind(&self) -> StepKind {
        StepKind::PostgresqlSupport
    }

    fn kind(&self) -> (r: StepKind) {
        StepKind::PostgresqlSupport
    }
}

#[derive(Default, Clone, Copy, Debug)]
pub struct OpenVSwitchStep;

impl InstallerStep for OpenVSwitchStep {
    open spec fn spec_kind(&self) -> StepKind {
        StepKind::OpenVSwitch
    }

    fn kind(&self) -> (r: StepKind) {
        StepKind::OpenVSwitch
    }
}

#[derive(Default, Clone, Copy, Debug)]
pub struct MultipathStep;

impl InstallerStep for MultipathStep {
    open spec fn spec_kind(&self) -> StepKind {
        StepKind::Multipath
    }

    fn kind(&self) -> (r: StepKind) {
        StepKind::Multipath
    }
}

#[derive(Default, Clone, Copy, Debug)]
pub struct ChangeOwnerStep;

impl InstallerStep for ChangeOwnerStep {
    open spec fn spec_kind(&self) -> StepKind {
        StepKind::ChangeOwner
    }

    fn kind(&self) -> (r: StepKind) {
        StepKind::ChangeOwner
    }
}

#[derive(Default, Clone, Copy, Debug)]
pub struct ArchDetectionStep;

impl InstallerStep for ArchDetectionStep {
    open spec fn spec_kind(&self) -> StepKind {
        StepKind::ArchDetection
    }

    fn kind(&self) -> (r: StepKind) {
        StepKind::ArchDetection
    }
}

} // verus!
