use vstd::prelude::*;

verus! {

/// The operations whose failure is reported with the underlying error's text.
#[derive(Debug, Clone, Copy, PartialEq, Eq, Structural)]
pub enum Failure {
    /// Finding the app's data directory.
    DataDir,
    /// Creating the app's data directory.
    CreateDataDir,
    /// Starting the server process.
    StartServer,
    /// Killing the server process.
    KillServer,
    /// Removing the checkout.
    RemoveInstall,
}

/// What is put before the underlying error's text.
pub open spec fn failure_prefix(f: Failure) -> Seq<char> {
    match f {
        Failure::DataDir => "Failed to get app data dir: "@,
        Failure::CreateDataDir => "Failed to create data dir: "@,
        Failure::StartServer => "Failed to start whisper-server: "@,
        Failure::KillServer => "Failed to kill server: "@,
        Failure::RemoveInstall => "Failed to remove whisper.cpp: "@,
    }
}

/// The error reported when the operation failed with the given text.
pub fn describe_failure(f: Failure, detail: &str) -> (e: String)
    ensures
        e@ == failure_prefix(f) + detail@,
{
    let prefix = match f {
        Failure::DataDir => "Failed to get app data dir: ",
        Failure::CreateDataDir => "Failed to create data dir: ",
        Failure::StartServer => "Failed to start whisper-server: ",
        Failure::KillServer => "Failed to kill server: ",
        Failure::RemoveInstall => "Failed to remove whisper.cpp: ",
    };
    String::from_str(prefix).concat(detail)
}

/// The greeting of the demo command.
pub open spec fn greeting(name: Seq<char>) -> Seq<char> {
    "Hello, "@ + name + "! You've been greeted from Rust!"@
}

/// Greets `name`.
pub fn greet(name: &str) -> (g: String)
    ensures
        g@ == greeting(name@),
{
    String::from_str("Hello, ").concat(name).concat("! You've been greeted from Rust!")
}

} // verus!
