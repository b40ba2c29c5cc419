use vstd::prelude::*;

verus! {

/// Every failure that the library reports.
#[derive(Debug)]
pub enum CwbError {
    /// No directory from the start directory up to the root holds a
    /// configuration file.
    ConfigNotFound,
    /// The configuration file at `path` could not be read or parsed.
    ConfigParseError { path: String, message: String },
    /// The requested environment is not configured; `valid` lists those that are.
    UnknownEnvironment { requested: String, valid: Vec<String> },
    /// The environment in use cannot be deleted; switch to another first.
    CurrentEnvironmentDeletion { name: String },
    /// No environment is in use and none was named.
    NoCurrentEnvironment,
    /// No configuration setting goes by this key.
    UnsupportedKey { key: String },
    /// The requested component is not registered; `known` lists those that are.
    UnknownComponent { requested: String, known: Vec<String> },
    /// A component was registered twice under the same name.
    DuplicateComponent { name: String },
    /// The executable could not be located or launched. `command` is the
    /// command line of the run.
    SpawnFailed { program: String, command: String, message: String },
    /// The process ran and exited unsuccessfully. `command` is the command
    /// line of the run.
    ExecutionFailed { command: String, exit_code: Option<i32>, stdout: String, stderr: String },
    /// The process succeeded but its captured output is not valid UTF-8.
    InvalidOutput { command: String },
    /// A destructive operation was refused at the confirmation gate.
    ConfirmationDenied,
    /// A concurrent unit of work ended abnormally instead of returning.
    TaskPanicked,
    /// Members of a batch failed: `failed` holds their positions in
    /// increasing order, `total` the size of the batch and `cause` the
    /// error of the first failed member.
    BatchFailed { failed: Vec<usize>, total: usize, cause: Box<CwbError> },
}

} // verus!
