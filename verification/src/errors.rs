//! The error kinds a run can end with, and the message shown for each.

use vstd::prelude::*;

verus! {

/// One of the three parameters a run needs.
#[derive(Clone, Copy, Debug, PartialEq, Eq, Structural)]
pub enum Param {
    Out,
    Field,
    Vm,
}

/// Everything that can go wrong in one invocation. Each kind is fatal:
/// the caller reports the message and exits with a non-zero status.
#[derive(Clone, Copy, Debug, PartialEq, Eq, Structural)]
pub enum RunError {
    /// A required value was supplied neither on the command line nor,
    /// unless defaults were being set, by the settings file.
    MissingParameter { param: Param, for_default: bool },
    /// The settings file exists but does not hold the expected triple.
    InvalidSettings,
    /// The output path refers to a variable that is not set, so it could not
    /// be expanded to a usable path.
    PathExpansionFailure,
    /// The target file is not valid JSON or its root is not an object.
    InvalidTargetJson,
    /// A file could not be read, written or created.
    IoFailure,
    /// The hypervisor shell could not be run or reported an error.
    ExternalCommandFailure,
}

/// The message shown for each error kind.
pub open spec fn spec_message(e: RunError) -> Seq<char> {
    match e {
        RunError::MissingParameter { param: Param::Out, for_default: true } => "--out is required when using --set-default"@,
        RunError::MissingParameter { param: Param::Field, for_default: true } => "--field is required when using --set-default"@,
        RunError::MissingParameter { param: Param::Vm, for_default: true } => "--vm is required when using --set-default"@,
        RunError::MissingParameter { param: Param::Out, for_default: false } => "Output file must be specified or default set"@,
        RunError::MissingParameter { param: Param::Field, for_default: false } => "Field must be specified or default set"@,
        RunError::MissingParameter { param: Param::Vm, for_default: false } => "VM name must be specified or default set"@,
        RunError::InvalidSettings => "Default config is invalid JSON"@,
        RunError::PathExpansionFailure => "Failed to expand a variable in the output path"@,
        RunError::InvalidTargetJson => "Target JSON must be an object at the root"@,
        RunError::IoFailure => "File operation failed"@,
        RunError::ExternalCommandFailure => "PowerShell query failed"@,
    }
}

impl RunError {
    /// A human-readable description of the failure.
    pub fn message(&self) -> (r: String)
        ensures
            r@ == spec_message(*self),
    {
        match *self {
            RunError::MissingParameter { param: Param::Out, for_default: true } => "--out is required when using --set-default".to_owned(),
            RunError::MissingParameter { param: Param::Field, for_default: true } => "--field is required when using --set-default".to_owned(),
            RunError::MissingParameter { param: Param::Vm, for_default: true } => "--vm is required when using --set-default".to_owned(),
            RunError::MissingParameter { param: Param::Out, for_default: false } => "Output file must be specified or default set".to_owned(),
            RunError::MissingParameter { param: Param::Field, for_default: false } => "Field must be specified or default set".to_owned(),
            RunError::MissingParameter { param: Param::Vm, for_default: false } => "VM name must be specified or default set".to_owned(),
            RunError::InvalidSettings => "Default config is invalid JSON".to_owned(),
            RunError::PathExpansionFailure => "Failed to expand a variable in the output path".to_owned(),
            RunError::InvalidTargetJson => "Target JSON must be an object at the root".to_owned(),
            RunError::IoFailure => "File operation failed".to_owned(),
            RunError::ExternalCommandFailure => "PowerShell query failed".to_owned(),
        }
    }
}

} // verus!
