use vstd::prelude::*;
use crate::payloads::LogPayload;
use crate::text::{decimal, decimal_string, lossy_text, utf8_lossy};

verus! {

/// The event that carries a progress report to the front end.
pub const PROGRESS_EVENT: &'static str = "whisper://progress";

/// The event that carries a line of the server's output to the front end.
pub const SERVER_LOG_EVENT: &'static str = "whisper://server-log";

/// The event that tells the front end that the server has exited.
pub const SERVER_STOPPED_EVENT: &'static str = "whisper://server-stopped";

/// The address the server listens on and is probed at.
pub open spec fn host() -> Seq<char> {
    "127.0.0.1"@
}

/// The arguments the server is started with: its model file and where to listen.
pub open spec fn server_args_view(model_path: Seq<char>, port: u16) -> Seq<Seq<char>> {
    seq!["-m"@, model_path, "--port"@, decimal(port as nat), "--host"@, host()]
}

/// The error of a start when the server binary is missing.
pub open spec fn binary_missing_error() -> Seq<char> {
    "whisper-server binary not found. Please install first."@
}

/// The error of a start when the model file is missing.
pub open spec fn model_missing_error(model_path: Seq<char>) -> Seq<char> {
    "Model file not found: "@ + model_path + ". Please install first."@
}

/// A start may go on only when the server binary and the model file both
/// exist; the binary is looked for first.
pub fn check_installed(binary_exists: bool, model_exists: bool, model_path: &str) -> (r: Result<(), String>)
    ensures
        !binary_exists ==> (r matches Err(e) && e@ == binary_missing_error()),
        binary_exists && !model_exists ==> (r matches Err(e) && e@ == model_missing_error(model_path@)),
        binary_exists && model_exists ==> r is Ok,
{
    if !binary_exists {
        return Err(String::from_str("whisper-server binary not found. Please install first."));
    }
    if !model_exists {
        let e = String::from_str("Model file not found: ").concat(model_path).concat(". Please install first.");
        return Err(e);
    }
    Ok(())
}

/// The arguments of the server process: model file, port, local host.
pub fn server_args(model_path: &str, port: u16) -> (args: Vec<String>)
    ensures
        args.deep_view() == server_args_view(model_path@, port),
{
    let mut args: Vec<String> = Vec::new();
    args.push(String::from_str("-m"));
    args.push(String::from_str(model_path));
    args.push(String::from_str("--port"));
    args.push(decimal_string(port as u64));
    args.push(String::from_str("--host"));
    args.push(String::from_str("127.0.0.1"));
    proof {
        assert(args.deep_view() =~= server_args_view(model_path@, port));
    }
    args
}

/// The address `127.0.0.1:<port>` at which the server's health is probed.
pub fn health_address(port: u16) -> (a: String)
    ensures
        a@ == host() + ":"@ + decimal(port as nat),
{
    let a = String::from_str("127.0.0.1:");
    proof {
        reveal_strlit("127.0.0.1:");
        reveal_strlit("127.0.0.1");
        reveal_strlit(":");
        assert("127.0.0.1:"@ =~= host() + ":"@);
    }
    let d = decimal_string(port as u64);
    a.concat(d.as_str())
}

/// What the running server reports.
#[derive(Debug)]
pub enum ServerEvent {
    /// A line on its standard output.
    Stdout(Vec<u8>),
    /// A line on its standard error.
    Stderr(Vec<u8>),
    /// It exited, with this code or by this signal.
    Terminated { code: Option<i32>, signal: Option<i32> },
    /// Its output could not be read.
    Error(String),
    /// Anything else.
    Other,
}

/// What to do with an event of the server.
#[derive(Debug)]
pub enum ServerReaction {
    /// Forward this line as a server log.
    Log(LogPayload),
    /// Tell that the server stopped, forget its handle, and stop listening.
    Stopped { code: Option<i32>, signal: Option<i32> },
    /// Nothing.
    Ignore,
}

/// A log line as plain values: its source and its text.
pub open spec fn log_view(l: LogPayload) -> (Seq<char>, Seq<char>) {
    (l.source@, l.message@)
}

/// The reaction to an event, as plain values: output lines become logs named
/// after their stream, read errors become logs from "error", an exit is passed
/// on with its code and signal, and anything else is ignored.
pub open spec fn reaction_matches(event: ServerEvent, reaction: ServerReaction) -> bool {
    match event {
        ServerEvent::Stdout(line) => reaction matches ServerReaction::Log(l) && log_view(l) == ("stdout"@, lossy_text(line@)),
        ServerEvent::Stderr(line) => reaction matches ServerReaction::Log(l) && log_view(l) == ("stderr"@, lossy_text(line@)),
        ServerEvent::Error(e) => reaction matches ServerReaction::Log(l) && log_view(l) == ("error"@, e@),
        ServerEvent::Terminated { code, signal } => reaction == (ServerReaction::Stopped { code, signal }),
        ServerEvent::Other => reaction is Ignore,
    }
}

/// Decides what to do with an event of the server.
pub fn react(event: ServerEvent) -> (r: ServerReaction)
    ensures
        reaction_matches(event, r),
        event matches ServerEvent::Terminated { code, signal } ==> (r matches ServerReaction::Stopped {
            code: c,
            signal: s,
        } && c == code && s == signal),
{
    match event {
        ServerEvent::Stdout(line) => ServerReaction::Log(LogPayload::new("stdout", utf8_lossy(line.as_slice()))),
        ServerEvent::Stderr(line) => ServerReaction::Log(LogPayload::new("stderr", utf8_lossy(line.as_slice()))),
        ServerEvent::Error(e) => ServerReaction::Log(LogPayload::new("error", e)),
        ServerEvent::Terminated { code, signal } => ServerReaction::Stopped { code, signal },
        ServerEvent::Other => ServerReaction::Ignore,
    }
}

/// Whether the server's handle is to be forgotten after this reaction: exactly
/// when the server has stopped, which also ends the listening.
pub fn ends_listening(r: &ServerReaction) -> (b: bool)
    ensures
        b == (r is Stopped),
{
    match r {
        ServerReaction::Stopped { .. } => true,
        _ => false,
    }
}


/// An exit of the server is passed on as a stop with the same exit code and the
/// same signal, whatever they are.
pub proof fn law_exit_passed_on(code: Option<i32>, signal: Option<i32>, r: ServerReaction)
    requires
        reaction_matches(ServerEvent::Terminated { code, signal }, r),
    ensures
        r is Stopped,
        r->Stopped_code == code,
        r->Stopped_signal == signal,
{
}


/// The server is started on its model file, the chosen port written in decimal,
/// and the local host; its health is probed at that same host and port; a start
/// needs the binary first, then the model file, naming the file that is missing.
pub proof fn law_server_launch(model_path: Seq<char>, port: u16)
    ensures
        server_args_view(model_path, port) == seq![
            "-m"@,
            model_path,
            "--port"@,
            decimal(port as nat),
            "--host"@,
            "127.0.0.1"@,
        ],
        host() == "127.0.0.1"@,
        binary_missing_error() == "whisper-server binary not found. Please install first."@,
        model_missing_error(model_path) == "Model file not found: "@ + model_path + ". Please install first."@,
{
}

} // verus!
