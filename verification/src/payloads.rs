use vstd::prelude::*;

verus! {

/// What the front end is told about the local whisper.cpp installation and server.
#[derive(Debug)]
pub struct WhisperStatus {
    pub installed: bool,
    pub server_running: bool,
    pub server_healthy: bool,
    pub port: u16,
    pub model: String,
    pub install_path: String,
    pub binary_exists: bool,
    pub model_exists: bool,
}

/// One step of progress of an install or an update.
#[derive(Debug)]
pub struct ProgressPayload {
    pub stage: String,
    pub message: String,
    pub done: bool,
    pub error: bool,
}

/// One line of output of the whisper server.
#[derive(Debug)]
pub struct LogPayload {
    pub source: String,
    pub message: String,
}

/// A progress report as plain values.
pub struct ProgressView {
    pub stage: Seq<char>,
    pub message: Seq<char>,
    pub done: bool,
    pub error: bool,
}

impl View for ProgressPayload {
    type V = ProgressView;

    open spec fn view(&self) -> ProgressView {
        ProgressView { stage: self.stage@, message: self.message@, done: self.done, error: self.error }
    }
}

impl DeepView for ProgressPayload {
    type V = ProgressView;

    open spec fn deep_view(&self) -> ProgressView {
        self@
    }
}

/// The progress report with these parts.
pub open spec fn progress_view(stage: Seq<char>, message: Seq<char>, done: bool, error: bool) -> ProgressView {
    ProgressView { stage, message, done, error }
}

impl ProgressPayload {
    /// Builds a progress report from its parts.
    pub fn new(stage: &str, message: &str, done: bool, error: bool) -> (p: ProgressPayload)
        ensures
            p@ == progress_view(stage@, message@, done, error),
    {
        ProgressPayload {
            stage: String::from_str(stage),
            message: String::from_str(message),
            done,
            error,
        }
    }

    /// A copy with the same contents.
    pub fn duplicate(&self) -> (p: ProgressPayload)
        ensures
            p@ == self@,
    {
        ProgressPayload {
            stage: self.stage.clone(),
            message: self.message.clone(),
            done: self.done,
            error: self.error,
        }
    }
}

impl LogPayload {
    /// A log line from the given source ("stdout", "stderr" or "error").
    pub fn new(source: &str, message: String) -> (l: LogPayload)
        ensures
            l.source@ == source@,
            l.message@ == message@,
    {
        LogPayload { source: String::from_str(source), message }
    }
}

impl WhisperStatus {
    /// Puts the status together from what was found on disk and about the server.
    /// The installation counts as complete when both the server binary and the
    /// model file exist; the server counts as healthy only while it runs and
    /// answers on its port.
    pub fn compose(
        binary_exists: bool,
        model_exists: bool,
        server_running: bool,
        answers: bool,
        port: u16,
        model: String,
        install_path: String,
    ) -> (s: WhisperStatus)
        ensures
            s.installed == (binary_exists && model_exists),
            s.binary_exists == binary_exists,
            s.model_exists == model_exists,
            s.server_running == server_running,
            s.server_healthy == (server_running && answers),
            s.port == port,
            s.model@ == model@,
            s.install_path@ == install_path@,
    {
        WhisperStatus {
            installed: binary_exists && model_exists,
            server_running,
            server_healthy: server_running && answers,
            port,
            model,
            install_path,
            binary_exists,
            model_exists,
        }
    }
}

} // verus!
