//! The environment validator: the ordered pass/fail gates that must all
//! hold before anything is mutated. The probing itself (running the tool,
//! looking at the file system) happens outside; this module decides from
//! the observed facts, in the required order, and owns the diagnostics.

use vstd::prelude::*;
use crate::text::{contains_seq, str_contains};

verus! {

/// What probing the external version-control tool observed: either its
/// process could not be started at all, or it ran and printed this text.
pub enum ToolProbe {
    StartFailed,
    Output(String),
}

/// The first gate that failed, in checking order.
#[derive(Clone, Copy, PartialEq, Eq, Structural, Debug)]
pub enum EnvError {
    /// The tool's process could not be started.
    ToolStartFailed,
    /// The tool ran but its version output lacked the expected marker.
    ToolUnexpectedOutput,
    /// The fixed hidden configuration directory under home is missing.
    SshDirMissing,
    /// The fixed-name registry file inside that directory is missing.
    RegistryFileMissing,
}

/// The marker that the tool's version output must contain.
pub open spec fn spec_version_marker() -> Seq<char> {
    "git version"@
}

/// The checks in order: tool runnable, its output carries the version
/// marker, the configuration directory exists, the registry file exists.
/// The first failure wins; success touches nothing and says nothing.
pub open spec fn spec_validate(
    probe: ToolProbe,
    ssh_dir_exists: bool,
    registry_file_exists: bool,
) -> Result<(), EnvError> {
    match probe {
        ToolProbe::StartFailed => Err(EnvError::ToolStartFailed),
        ToolProbe::Output(out) => if !contains_seq(out@, spec_version_marker()) {
            Err(EnvError::ToolUnexpectedOutput)
        } else if !ssh_dir_exists {
            Err(EnvError::SshDirMissing)
        } else if !registry_file_exists {
            Err(EnvError::RegistryFileMissing)
        } else {
            Ok(())
        },
    }
}

/// Runs the validation gates on the observed facts.
pub fn validate_environment(
    probe: &ToolProbe,
    ssh_dir_exists: bool,
    registry_file_exists: bool,
) -> (r: Result<(), EnvError>)
    ensures
        r == spec_validate(*probe, ssh_dir_exists, registry_file_exists),
{
    match probe {
        ToolProbe::StartFailed => Err(EnvError::ToolStartFailed),
        ToolProbe::Output(out) => {
            if !str_contains(out.as_str(), version_marker()) {
                Err(EnvError::ToolUnexpectedOutput)
            } else if !ssh_dir_exists {
                Err(EnvError::SshDirMissing)
            } else if !registry_file_exists {
                Err(EnvError::RegistryFileMissing)
            } else {
                Ok(())
            }
        },
    }
}

impl EnvError {
    /// The single diagnostic line printed for this failure.
    pub fn message(&self) -> (m: String)
        ensures
            *self is ToolStartFailed ==> m@ == "Failed to execute git check process"@,
            *self is ToolUnexpectedOutput ==> m@ == "Git not installed."@,
            *self is SshDirMissing ==> m@ == "Missing ~/.ssh/ directory."@,
            *self is RegistryFileMissing ==> m@ == "Missing ~/.ssh/accounts.csv file."@,
    {
        match self {
            EnvError::ToolStartFailed => "Failed to execute git check process".to_owned(),
            EnvError::ToolUnexpectedOutput => "Git not installed.".to_owned(),
            EnvError::SshDirMissing => "Missing ~/.ssh/ directory.".to_owned(),
            EnvError::RegistryFileMissing => "Missing ~/.ssh/accounts.csv file.".to_owned(),
        }
    }

    /// Every validation failure ends the run with a non-zero status.
    pub fn exit_code(&self) -> (c: u8)
        ensures
            c == 1,
    {
        1
    }
}

/// The marker looked for in the tool's version output.
pub fn version_marker() -> (s: &'static str)
    ensures
        s@ == spec_version_marker(),
{
    "git version"
}

/// The version-query flag the tool is probed with.
pub fn version_flag() -> (s: &'static str)
    ensures
        s@ == "--version"@,
{
    "--version"
}

/// The name of the external version-control tool.
pub fn tool_name() -> (s: &'static str)
    ensures
        s@ == "git"@,
{
    "git"
}

/// The fixed hidden configuration directory under the home directory.
pub fn ssh_dir_name() -> (s: &'static str)
    ensures
        s@ == ".ssh"@,
{
    ".ssh"
}

/// The fixed name of the registry file inside the configuration directory.
pub fn registry_file_name() -> (s: &'static str)
    ensures
        s@ == "accounts.csv"@,
{
    "accounts.csv"
}

} // verus!
