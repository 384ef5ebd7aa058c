//! Enums: authentication methods, server status, process kinds, platforms,
//! and the acquisition status of a binaries cache location.

use vstd::prelude::*;

verus! {

/// PostgreSQL authentication method written into the cluster at `initdb` time.
///
/// Choose between plain password, md5 or scram-sha-256 authentication.
#[derive(Debug, Clone, Copy, PartialEq, Eq, Structural)]
pub enum PgAuthMethod {
    /// plain-text password
    Plain,
    /// md5 hashed password
    MD5,
    /// scram-sha-256 hashed password
    ScramSha256,
}

impl PgAuthMethod {
    /// The name under which `initdb` knows this method.
    pub open spec fn spec_name(self) -> Seq<char> {
        match self {
            PgAuthMethod::Plain => "password"@,
            PgAuthMethod::MD5 => "md5"@,
            PgAuthMethod::ScramSha256 => "scram-sha-256"@,
        }
    }

    pub fn name(&self) -> (r: &'static str)
        ensures
            r@ == self.spec_name(),
    {
        match self {
            PgAuthMethod::Plain => "password",
            PgAuthMethod::MD5 => "md5",
            PgAuthMethod::ScramSha256 => "scram-sha-256",
        }
    }
}

/// PostgreSQL server status, owned by one lifecycle controller instance.
#[derive(Debug, Clone, Copy, PartialEq, Eq, Structural)]
pub enum PgServerStatus {
    /// Postgres uninitialized
    Uninitialized,
    /// Initialization process running
    Initializing,
    /// Initialization process finished
    Initialized,
    /// Postgres server process starting
    Starting,
    /// Postgres server process started
    Started,
    /// Postgres server process stopping
    Stopping,
    /// Postgres server process stopped
    Stopped,
    /// Postgres failure
    Failure,
}

/// PostgreSQL process type: the three external commands the controller issues.
#[derive(Debug, Clone, Copy, PartialEq, Eq, Structural)]
pub enum PgProcessType {
    /// initdb process
    InitDb,
    /// pg_ctl start process
    StartDb,
    /// pg_ctl stop process
    StopDb,
}

impl PgProcessType {
    /// Server status to set when this operation begins.
    pub open spec fn spec_status_entry(self) -> PgServerStatus {
        match self {
            PgProcessType::InitDb => PgServerStatus::Initializing,
            PgProcessType::StartDb => PgServerStatus::Starting,
            PgProcessType::StopDb => PgServerStatus::Stopping,
        }
    }

    pub fn status_entry(&self) -> (r: PgServerStatus)
        ensures
            r == self.spec_status_entry(),
    {
        match self {
            PgProcessType::InitDb => PgServerStatus::Initializing,
            PgProcessType::StartDb => PgServerStatus::Starting,
            PgProcessType::StopDb => PgServerStatus::Stopping,
        }
    }

    /// Server status to set when this operation exits successfully.
    pub open spec fn spec_status_exit(self) -> PgServerStatus {
        match self {
            PgProcessType::InitDb => PgServerStatus::Initialized,
            PgProcessType::StartDb => PgServerStatus::Started,
            PgProcessType::StopDb => PgServerStatus::Stopped,
        }
    }

    pub fn status_exit(&self) -> (r: PgServerStatus)
        ensures
            r == self.spec_status_exit(),
    {
        match self {
            PgProcessType::InitDb => PgServerStatus::Initialized,
            PgProcessType::StartDb => PgServerStatus::Started,
            PgProcessType::StopDb => PgServerStatus::Stopped,
        }
    }

    /// The name of this process kind, as shown in commands and messages.
    pub open spec fn spec_name(self) -> Seq<char> {
        match self {
            PgProcessType::InitDb => "initdb"@,
            PgProcessType::StartDb => "start"@,
            PgProcessType::StopDb => "stop"@,
        }
    }

    pub fn name(&self) -> (r: &'static str)
        ensures
            r@ == self.spec_name(),
    {
        match self {
            PgProcessType::InitDb => "initdb",
            PgProcessType::StartDb => "start",
            PgProcessType::StopDb => "stop",
        }
    }
}

/// The operating systems for which binary distributions exist.
#[derive(Debug, Clone, Copy, PartialEq, Eq, Structural)]
pub enum OperationSystem {
    Darwin,
    Windows,
    Linux,
    AlpineLinux,
}

impl OperationSystem {
    /// The platform name as it appears in distribution file names.
    pub open spec fn spec_name(self) -> Seq<char> {
        match self {
            OperationSystem::Darwin => "darwin"@,
            OperationSystem::Windows => "windows"@,
            OperationSystem::Linux => "linux"@,
            OperationSystem::AlpineLinux => "linux"@,
        }
    }

    pub fn name(&self) -> (r: &'static str)
        ensures
            r@ == self.spec_name(),
    {
        match self {
            OperationSystem::Darwin => "darwin",
            OperationSystem::Windows => "windows",
            OperationSystem::Linux => "linux",
            OperationSystem::AlpineLinux => "linux",
        }
    }

    /// The per-OS segment of the cache directory path; Alpine gets a prefix of
    /// its own so that its musl builds never mix with glibc builds.
    pub open spec fn spec_cache_segment(self) -> Seq<char> {
        match self {
            OperationSystem::Darwin => "darwin"@,
            OperationSystem::Windows => "windows"@,
            OperationSystem::Linux => "linux"@,
            OperationSystem::AlpineLinux => "arch_linux"@,
        }
    }

    pub fn cache_segment(&self) -> (r: &'static str)
        ensures
            r@ == self.spec_cache_segment(),
    {
        match self {
            OperationSystem::Darwin => "darwin",
            OperationSystem::Windows => "windows",
            OperationSystem::Linux => "linux",
            OperationSystem::AlpineLinux => "arch_linux",
        }
    }
}

/// The cpu architectures for which binary distributions exist.
#[derive(Debug, Clone, Copy, PartialEq, Eq, Structural)]
pub enum Architecture {
    Amd64,
    I386,
    Arm32v6,
    Arm32v7,
    Arm64v8,
    Ppc64le,
}

impl Architecture {
    /// The architecture name as it appears in distribution file names.
    pub open spec fn spec_name(self) -> Seq<char> {
        match self {
            Architecture::Amd64 => "amd64"@,
            Architecture::I386 => "i386"@,
            Architecture::Arm32v6 => "arm32v6"@,
            Architecture::Arm32v7 => "arm32v7"@,
            Architecture::Arm64v8 => "arm64v8"@,
            Architecture::Ppc64le => "ppc64le"@,
        }
    }

    pub fn name(&self) -> (r: &'static str)
        ensures
            r@ == self.spec_name(),
    {
        match self {
            Architecture::Amd64 => "amd64",
            Architecture::I386 => "i386",
            Architecture::Arm32v6 => "arm32v6",
            Architecture::Arm32v7 => "arm32v7",
            Architecture::Arm64v8 => "arm64v8",
            Architecture::Ppc64le => "ppc64le",
        }
    }
}

/// The acquisition status of one binaries cache location.
#[derive(Debug, Clone, Copy, PartialEq, Eq, Structural)]
pub enum PgAcquisitionStatus {
    /// Acquiring postgresql binaries
    InProgress,
    /// Finished acquiring postgresql binaries
    Finished,
    /// No acquisition attempted yet
    Undefined,
}

} // verus!
