//! Errors that end a run.
use vstd::prelude::*;

verus! {

/// Why a run stopped before the interactive runtime finished.
#[derive(Debug)]
pub enum LaunchError {
    /// A version or identifier argument is malformed.
    InvalidInput { value: String, expected: String },
    /// The discovery script could not be written to `path`.
    ScriptWrite { path: String, cause: String },
    /// The discovery runtime could not be started.
    DiscoverySpawn { cause: String },
    /// The discovery runtime exited unsuccessfully; its standard error as captured.
    DiscoveryFailure { stderr: String },
    /// The discovery output does not hold the three string keys; the output as captured.
    ConfigParse { payload: String },
    /// The interrupt handler could not be installed.
    SignalHandler { cause: String },
    /// The interactive runtime could not be started.
    ChildSpawn { cause: String },
    /// The termination status of the interactive runtime could not be obtained.
    ChildWait { cause: String },
}

/// The line reported for an error: what failed, then its cause or the
/// captured text.
pub open spec fn message_text(e: LaunchError) -> Seq<char> {
    match e {
        LaunchError::InvalidInput { value, expected } => "invalid value '"@ + value@ + "': "@
            + expected@,
        LaunchError::ScriptWrite { path, cause } => "failed to write temporary Julia script: "@
            + path@ + ": "@ + cause@,
        LaunchError::DiscoverySpawn { cause } => "failed to run julia artifact lookup command: "@
            + cause@,
        LaunchError::DiscoveryFailure { stderr } => "julia init process did not run successfully:\n"@
            + stderr@,
        LaunchError::ConfigParse { payload } => "failed to parse TOML payload:\n"@ + payload@,
        LaunchError::SignalHandler { cause } => "failed to set ctrl-c handler: "@ + cause@,
        LaunchError::ChildSpawn { cause } => "failed to start main julia process: "@ + cause@,
        LaunchError::ChildWait { cause } => "failed to wait for main julia process to finish: "@
            + cause@,
    }
}

fn joined(head: &str, tail: &String) -> (r: String)
    ensures
        r@ == head@ + tail@,
{
    let mut r = String::from_str(head);
    r.append(tail.as_str());
    r
}

impl LaunchError {
    /// The line to report for this error.
    pub fn message(&self) -> (r: String)
        ensures
            r@ == message_text(*self),
    {
        match self {
            LaunchError::InvalidInput { value, expected } => {
                let mut r = joined("invalid value '", value);
                r.append("': ");
                r.append(expected.as_str());
                r
            },
            LaunchError::ScriptWrite { path, cause } => {
                let mut r = joined("failed to write temporary Julia script: ", path);
                r.append(": ");
                r.append(cause.as_str());
                r
            },
            LaunchError::DiscoverySpawn { cause } => joined(
                "failed to run julia artifact lookup command: ",
                cause,
            ),
            LaunchError::DiscoveryFailure { stderr } => joined(
                "julia init process did not run successfully:\n",
                stderr,
            ),
            LaunchError::ConfigParse { payload } => joined(
                "failed to parse TOML payload:\n",
                payload,
            ),
            LaunchError::SignalHandler { cause } => joined("failed to set ctrl-c handler: ", cause),
            LaunchError::ChildSpawn { cause } => joined("failed to start main julia process: ", cause),
            LaunchError::ChildWait { cause } => joined(
                "failed to wait for main julia process to finish: ",
                cause,
            ),
        }
    }
}

} // verus!
