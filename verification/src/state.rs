use vstd::prelude::*;
use crate::layout::{default_model, default_model_name, DEFAULT_PORT};

verus! {

/// What the app keeps between commands: the running server's handle `C`, the
/// port and model it is set to use, and whether an install is under way.
#[derive(Debug)]
pub struct WhisperState<C> {
    pub server_child: Option<C>,
    pub port: u16,
    pub model: String,
    pub installing: bool,
}

/// The state as plain values.
pub struct StateView<C> {
    pub server_child: Option<C>,
    pub port: u16,
    pub model: Seq<char>,
    pub installing: bool,
}

impl<C> View for WhisperState<C> {
    type V = StateView<C>;

    open spec fn view(&self) -> StateView<C> {
        StateView { server_child: self.server_child, port: self.port, model: self.model@, installing: self.installing }
    }
}

/// What a server start goes on with once it is allowed: the port and the model.
#[derive(Debug)]
pub struct StartRequest {
    pub port: u16,
    pub model: String,
}

/// A result of texts as plain values.
pub open spec fn text_result(r: Result<String, String>) -> Result<Seq<char>, Seq<char>> {
    match r {
        Ok(t) => Ok(t@),
        Err(e) => Err(e@),
    }
}

/// An optional text as a plain value.
pub open spec fn optional_text(t: Option<String>) -> Option<Seq<char>> {
    match t {
        Some(t) => Some(t@),
        None => None,
    }
}

/// The result of a start request as plain values.
pub open spec fn start_result(r: Result<StartRequest, String>) -> Result<(u16, Seq<char>), Seq<char>> {
    match r {
        Ok(q) => Ok((q.port, q.model@)),
        Err(e) => Err(e@),
    }
}

/// A result with a text error, the error as a plain value.
pub open spec fn error_text<T>(r: Result<T, String>) -> Result<T, Seq<char>> {
    match r {
        Ok(t) => Ok(t),
        Err(e) => Err(e@),
    }
}

/// The error of an install begun while another runs.
pub open spec fn install_busy_error() -> Seq<char> {
    "Installation already in progress"@
}

/// The error of a start while the server runs.
pub open spec fn already_running_error() -> Seq<char> {
    "Server is already running"@
}

/// The error of a stop while no server runs.
pub open spec fn not_running_error() -> Seq<char> {
    "Server is not running"@
}

/// The state the app starts in.
pub open spec fn initial_state<C>() -> StateView<C> {
    StateView { server_child: None, port: DEFAULT_PORT, model: default_model(), installing: false }
}

/// The model an install uses: the one asked for, or the default.
pub open spec fn chosen_model(model: Option<Seq<char>>) -> Seq<char> {
    match model {
        Some(m) => m,
        None => default_model(),
    }
}

/// Beginning an install: refused while one runs; else marks the install as
/// running and records the model.
pub open spec fn begin_install_step<C>(s: StateView<C>, model: Option<Seq<char>>) -> (StateView<C>, Result<Seq<char>, Seq<char>>) {
    if s.installing {
        (s, Err(install_busy_error()))
    } else {
        (StateView { installing: true, model: chosen_model(model), ..s }, Ok(chosen_model(model)))
    }
}

/// Ending an install, whatever its result.
pub open spec fn finish_install_step<C>(s: StateView<C>) -> StateView<C> {
    StateView { installing: false, ..s }
}

/// Beginning a server start: refused while a server runs; else records the
/// port (8080 unless one is asked for) and goes on with it and the model.
pub open spec fn begin_start_step<C>(s: StateView<C>, port: Option<u16>) -> (StateView<C>, Result<(u16, Seq<char>), Seq<char>>) {
    if s.server_child is Some {
        (s, Err(already_running_error()))
    } else {
        let p = match port {
            Some(p) => p,
            None => DEFAULT_PORT,
        };
        (StateView { port: p, ..s }, Ok((p, s.model)))
    }
}

/// Keeping the handle of a server that was started.
pub open spec fn attach_step<C>(s: StateView<C>, child: C) -> StateView<C> {
    StateView { server_child: Some(child), ..s }
}

/// Stopping the server: hands out its handle to be killed, or refuses when
/// none runs.
pub open spec fn stop_step<C>(s: StateView<C>) -> (StateView<C>, Result<C, Seq<char>>) {
    match s.server_child {
        Some(c) => (StateView { server_child: None, ..s }, Ok(c)),
        None => (s, Err(not_running_error())),
    }
}

/// Letting go of the server, if one runs, as an update, a removal or the
/// server's own exit does.
pub open spec fn release_step<C>(s: StateView<C>) -> (StateView<C>, Option<C>) {
    (StateView { server_child: None, ..s }, s.server_child)
}

impl<C> WhisperState<C> {
    /// The state the app starts in: no server, port 8080, model `base.en`, no install.
    pub fn new() -> (s: WhisperState<C>)
        ensures
            s@ == initial_state::<C>(),
    {
        WhisperState { server_child: None, port: DEFAULT_PORT, model: default_model_name(), installing: false }
    }

    /// Whether a server is running.
    pub fn is_server_running(&self) -> (b: bool)
        ensures
            b == (self.server_child is Some),
    {
        self.server_child.is_some()
    }

    /// Begins an install of `model` (the default when `None`), unless one runs.
    pub fn begin_install(&mut self, model: Option<String>) -> (r: Result<String, String>)
        ensures
            (final(self)@, text_result(r)) == begin_install_step(
                old(self)@,
                optional_text(model),
            ),
    {
        if self.installing {
            return Err(String::from_str("Installation already in progress"));
        }
        self.installing = true;
        let model_name = match model {
            Some(m) => m,
            None => default_model_name(),
        };
        self.model = model_name.clone();
        Ok(model_name)
    }

    /// Ends the install that runs.
    pub fn finish_install(&mut self)
        ensures
            final(self)@ == finish_install_step(old(self)@),
    {
        self.installing = false;
    }

    /// Begins a start of the server on `port` (8080 when `None`), unless one runs.
    pub fn begin_start(&mut self, port: Option<u16>) -> (r: Result<StartRequest, String>)
        ensures
            (final(self)@, start_result(r)) == begin_start_step(
                old(self)@,
                port,
            ),
    {
        if self.server_child.is_some() {
            return Err(String::from_str("Server is already running"));
        }
        let server_port = match port {
            Some(p) => p,
            None => DEFAULT_PORT,
        };
        self.port = server_port;
        Ok(StartRequest { port: server_port, model: self.model.clone() })
    }

    /// Keeps the handle of the server that was started.
    pub fn attach_server(&mut self, child: C)
        ensures
            final(self)@ == attach_step(old(self)@, child),
    {
        self.server_child = Some(child);
    }

    /// Hands out the running server's handle, to be killed; refuses when none runs.
    pub fn stop_server(&mut self) -> (r: Result<C, String>)
        ensures
            (final(self)@, error_text(r)) == stop_step(old(self)@),
    {
        match self.server_child.take() {
            Some(c) => Ok(c),
            None => Err(String::from_str("Server is not running")),
        }
    }

    /// Lets go of the server, if one runs, and hands out its handle.
    pub fn release_server(&mut self) -> (r: Option<C>)
        ensures
            (final(self)@, r) == release_step(old(self)@),
    {
        self.server_child.take()
    }
}

impl<C> Default for WhisperState<C> {
    fn default() -> (s: WhisperState<C>)
        ensures
            s@ == initial_state::<C>(),
    {
        WhisperState::new()
    }
}

/// While an install runs, another one is refused and changes nothing.
pub proof fn law_one_install_at_a_time<C>(s: StateView<C>, first: Option<Seq<char>>, second: Option<Seq<char>>)
    requires
        !s.installing,
    ensures
        ({
            let (s1, r1) = begin_install_step(s, first);
            let (s2, r2) = begin_install_step(s1, second);
            &&& r1 == Ok::<Seq<char>, Seq<char>>(chosen_model(first))
            &&& r2 == Err::<Seq<char>, Seq<char>>(install_busy_error())
            &&& s2 == s1
        }),
{
}

/// Once an install has ended, the next one may begin.
pub proof fn law_install_again_after_finish<C>(s: StateView<C>, first: Option<Seq<char>>, second: Option<Seq<char>>)
    requires
        !s.installing,
    ensures
        begin_install_step(finish_install_step(begin_install_step(s, first).0), second).1
            == Ok::<Seq<char>, Seq<char>>(chosen_model(second)),
{
}

/// A server start uses the model of the last install begun.
pub proof fn law_start_uses_installed_model<C>(s: StateView<C>, model: Option<Seq<char>>, port: Option<u16>)
    requires
        !s.installing,
        s.server_child is None,
    ensures
        begin_start_step(finish_install_step(begin_install_step(s, model).0), port).1 matches Ok(started)
            && started.1 == chosen_model(model),
{
}

/// While a server runs, another start is refused and changes nothing.
pub proof fn law_one_server_at_a_time<C>(s: StateView<C>, child: C, port: Option<u16>)
    ensures
        begin_start_step(attach_step(s, child), port) == (
            attach_step(s, child),
            Err::<(u16, Seq<char>), Seq<char>>(already_running_error()),
        ),
{
}

/// Stopping hands out the handle that was kept, and afterwards no server runs,
/// so that a second stop is refused.
pub proof fn law_stop_returns_attached<C>(s: StateView<C>, child: C)
    ensures
        stop_step(attach_step(s, child)).1 == Ok::<C, Seq<char>>(child),
        stop_step(attach_step(s, child)).0.server_child is None,
        stop_step(stop_step(attach_step(s, child)).0).1 == Err::<C, Seq<char>>(not_running_error()),
{
}

/// A start is refused only while a server runs, and records the port asked for,
/// or 8080.
pub proof fn law_start_records_port<C>(s: StateView<C>, port: Option<u16>)
    requires
        s.server_child is None,
    ensures
        begin_start_step(s, port).0.port == match port {
            Some(p) => p,
            None => DEFAULT_PORT,
        },
        begin_start_step(s, port).1 is Ok,
{
}


/// The refusals say what is in the way, and the app starts with no server, port
/// 8080, the model `base.en` and no install running.
pub proof fn law_state_texts<C>()
    ensures
        install_busy_error() == "Installation already in progress"@,
        already_running_error() == "Server is already running"@,
        not_running_error() == "Server is not running"@,
        initial_state::<C>() == (StateView::<C> { server_child: None, port: 8080, model: "base.en"@, installing: false }),
{
}

} // verus!
