//! The service lifecycle state machine: one supervised process at a time,
//! readiness detection over its output, the grace-window poll after a
//! start, and best-effort stop. All process I/O is the caller's concern;
//! every decision the supervisor takes is verified here.

use vstd::prelude::*;
use vstd::string::*;
use crate::text::{
    spec_contains,
    str_contains,
    spec_views,
    spec_split_lines,
    spec_tail,
    split_lines,
    tail_lines,
    spec_dec_digits,
    decimal_string,
    spec_signed_dec,
    signed_decimal_string,
    spec_join_lines,
    join_lines,
};
use crate::paths::EnvironmentPaths;

verus! {

/// How many trailing log lines an immediate-exit diagnostic carries.
pub const LOG_EXCERPT_LINES: usize = 30;

/// Result of one non-blocking poll of the child process's exit status.
#[derive(Clone, Copy, Debug)]
pub enum ExitPoll {
    /// The child has exited; `code` is its exit code, if one was reported.
    Exited { code: Option<i32> },
    /// The child is still running.
    StillRunning,
    /// The status check itself failed.
    CheckFailed,
}

/// Why a start was refused or failed.
#[derive(Debug)]
pub enum StartError {
    /// A supervised process is already tracked, on this port.
    AlreadyRunning { port: u16 },
    /// The managed runtime directory shows no prepared environment.
    DependenciesNotSynced,
    /// The tool binary is absent.
    ToolNotInstalled,
    /// The spawn itself failed; the description comes from the caller.
    SpawnFailed { detail: String },
    /// The child exited within the startup grace window.
    ImmediateExit { status: Option<i32>, excerpt: Vec<String> },
}

impl StartError {
    /// The remediation or diagnostic message each start failure carries.
    pub fn message(&self) -> (r: String)
        ensures
            *self matches StartError::AlreadyRunning { port } ==> r@
                == "Server is already running on port "@ + spec_dec_digits(port as nat),
            *self is DependenciesNotSynced ==> r@
                == "Engine dependencies not synced. Please run setup first."@,
            *self is ToolNotInstalled ==> r@ == "uv is not installed. Please install it first."@,
            *self matches StartError::SpawnFailed { detail } ==> r@ == "Failed to start server: "@
                + detail@,
            *self matches StartError::ImmediateExit { status, excerpt } ==> r@
                == "Server process exited immediately with status: "@ + (match status {
                Some(c) => spec_signed_dec(c as int),
                None => "unknown"@,
            }) + "\n\nLast log output:\n"@ + spec_join_lines(spec_views(excerpt@)),
    {
        match self {
            StartError::AlreadyRunning { port } => {
                let mut s = String::from_str("Server is already running on port ");
                s.append(decimal_string(*port as u64).as_str());
                s
            },
            StartError::DependenciesNotSynced => String::from_str(
                "Engine dependencies not synced. Please run setup first.",
            ),
            StartError::ToolNotInstalled => String::from_str(
                "uv is not installed. Please install it first.",
            ),
            StartError::SpawnFailed { detail } => {
                let mut s = String::from_str("Failed to start server: ");
                s.append(detail.as_str());
                s
            },
            StartError::ImmediateExit { status, excerpt } => {
                let mut s = String::from_str("Server process exited immediately with status: ");
                match status {
                    Some(c) => s.append(signed_decimal_string(*c).as_str()),
                    None => s.append("unknown"),
                }
                s.append("\n\nLast log output:\n");
                s.append(join_lines(excerpt).as_str());
                s
            },
        }
    }
}

/// Why a stop was refused.
#[derive(Clone, Copy, Debug, PartialEq, Eq, Structural)]
pub enum StopError {
    /// No supervised process is tracked.
    NotRunning,
}

impl StopError {
    /// The message a refused stop carries.
    pub fn message(&self) -> (r: String)
        ensures
            r@ == "No server is currently running"@,
    {
        String::from_str("No server is currently running")
    }
}

/// What a successful start reports.
#[derive(Clone, Copy, Debug)]
pub struct StartSummary {
    pub pid: u32,
    pub port: u16,
}

/// A line signals readiness when it holds either fixed marker phrase.
pub open spec fn spec_is_ready_marker(line: Seq<char>) -> bool {
    spec_contains(line, "SERVER READY"@) || spec_contains(line, "Uvicorn running on"@)
}

/// Case-sensitive scan of one output line for the readiness markers.
pub fn is_ready_marker_line(line: &str) -> (r: bool)
    ensures
        r == spec_is_ready_marker(line@),
{
    str_contains(line, "SERVER READY") || str_contains(line, "Uvicorn running on")
}

/// Readiness after scanning `lines` in order, starting from `ready0`, while
/// the tracked-process flag is `running`.
pub open spec fn spec_scan_ready(ready0: bool, running: bool, lines: Seq<Seq<char>>) -> bool
    decreases lines.len(),
{
    if lines.len() == 0 {
        ready0
    } else {
        spec_scan_ready(
            ready0 || (running && spec_is_ready_marker(lines[0])),
            running,
            lines.drop_first(),
        )
    }
}

/// Law: a scan sets readiness exactly when some line holds a marker while a
/// process is tracked, and never resets it.
pub proof fn lemma_scan_ready(ready0: bool, running: bool, lines: Seq<Seq<char>>)
    ensures
        spec_scan_ready(ready0, running, lines) == (ready0 || (running && exists|i: int|
            0 <= i < lines.len() && spec_is_ready_marker(#[trigger] lines[i]))),
    decreases lines.len(),
{
    if lines.len() > 0 {
        lemma_scan_ready(ready0 || (running && spec_is_ready_marker(lines[0])), running, lines.drop_first());
        let rest = lines.drop_first();
        if exists|i: int| 0 <= i < rest.len() && spec_is_ready_marker(#[trigger] rest[i]) {
            let i = choose|i: int| 0 <= i < rest.len() && spec_is_ready_marker(#[trigger] rest[i]);
            assert(lines[i + 1] == rest[i]);
        }
        if exists|i: int| 0 <= i < lines.len() && spec_is_ready_marker(#[trigger] lines[i]) {
            let i = choose|i: int| 0 <= i < lines.len() && spec_is_ready_marker(#[trigger] lines[i]);
            if i > 0 {
                assert(rest[i - 1] == lines[i]);
            }
        }
    }
}

/// The supervisor's shared state: at most one tracked process, the port it
/// was started on, and the readiness flag.
pub struct ServiceState {
    handle: Option<u32>,
    port: Option<u16>,
    ready: bool,
}

impl ServiceState {
    /// The tracked process's identifier, if one is tracked.
    pub closed spec fn spec_pid(self) -> Option<u32> {
        self.handle
    }

    /// The port the tracked process was started on.
    pub closed spec fn spec_port(self) -> Option<u16> {
        self.port
    }

    /// Whether a readiness marker has been seen since the last start.
    pub closed spec fn spec_ready(self) -> bool {
        self.ready
    }

    /// A process is tracked.
    pub open spec fn spec_running(self) -> bool {
        self.spec_pid() is Some
    }

    /// Invariant: readiness only while a process is tracked, and a port is
    /// tracked exactly while a process is.
    pub closed spec fn wf(self) -> bool {
        &&& self.ready ==> self.handle is Some
        &&& self.port is Some <==> self.handle is Some
    }

    /// A fresh supervisor: stopped, portless, not ready.
    pub fn new() -> (r: ServiceState)
        ensures
            r.wf(),
            !r.spec_running(),
            r.spec_port() is None,
            !r.spec_ready(),
    {
        ServiceState { handle: None, port: None, ready: false }
    }

    /// Whether a process is tracked, without polling it.
    pub fn has_process(&self) -> (r: bool)
        ensures
            r == self.spec_running(),
    {
        self.handle.is_some()
    }

    /// The readiness flag, with no side effects.
    pub fn is_ready(&self) -> (r: bool)
        ensures
            r == self.spec_ready(),
    {
        self.ready
    }

    /// The tracked port, if any.
    pub fn port(&self) -> (r: Option<u16>)
        ensures
            r == self.spec_port(),
    {
        self.port
    }

    /// The start preconditions, checked in order: a tracked process refuses
    /// with `AlreadyRunning`, then missing dependencies, then the missing
    /// tool. On success the readiness flag is (still) clear and the caller
    /// may spawn.
    pub fn begin_start(&mut self, deps_synced: bool, tool_installed: bool) -> (r: Result<
        (),
        StartError,
    >)
        requires
            old(self).wf(),
        ensures
            *final(self) == *old(self),
            final(self).wf(),
            r is Ok <==> (!old(self).spec_running() && deps_synced && tool_installed),
            r is Ok ==> !final(self).spec_ready(),
            old(self).spec_running() ==> {
                &&& r matches Err(StartError::AlreadyRunning { port })
                &&& old(self).spec_port() == Some(port)
            },
            !old(self).spec_running() && !deps_synced ==> r matches Err(
                StartError::DependenciesNotSynced,
            ),
            !old(self).spec_running() && deps_synced && !tool_installed ==> r matches Err(
                StartError::ToolNotInstalled,
            ),
    {
        if self.handle.is_some() {
            // The invariant ties a tracked port to the tracked process.
            let port = self.port.unwrap();
            return Err(StartError::AlreadyRunning { port });
        }
        if !deps_synced {
            return Err(StartError::DependenciesNotSynced);
        }
        if !tool_installed {
            return Err(StartError::ToolNotInstalled);
        }
        self.ready = false;
        Ok(())
    }

    /// Track a freshly spawned process. Readiness starts clear.
    pub fn attach(&mut self, pid: u32, port: u16)
        requires
            old(self).wf(),
            !old(self).spec_running(),
        ensures
            final(self).wf(),
            final(self).spec_pid() == Some(pid),
            final(self).spec_port() == Some(port),
            !final(self).spec_ready(),
    {
        self.handle = Some(pid);
        self.port = Some(port);
        self.ready = false;
    }

    /// Scan one output line. Readiness is set when a marker is seen while a
    /// process is tracked; the result says whether this very line turned
    /// readiness on, so the one-time notification fires exactly once.
    pub fn observe_line(&mut self, line: &str) -> (emit_ready: bool)
        requires
            old(self).wf(),
        ensures
            final(self).wf(),
            final(self).spec_pid() == old(self).spec_pid(),
            final(self).spec_port() == old(self).spec_port(),
            final(self).spec_ready() == (old(self).spec_ready() || (old(self).spec_running()
                && spec_is_ready_marker(line@))),
            emit_ready == (!old(self).spec_ready() && final(self).spec_ready()),
    {
        if self.handle.is_some() && is_ready_marker_line(line) {
            let was_ready = self.ready;
            self.ready = true;
            !was_ready
        } else {
            false
        }
    }

    /// Scan a run of output lines in order; the result counts the readiness
    /// notifications to emit, which is never more than one per start.
    pub fn observe_lines(&mut self, lines: &Vec<String>) -> (emits: usize)
        requires
            old(self).wf(),
        ensures
            final(self).wf(),
            final(self).spec_pid() == old(self).spec_pid(),
            final(self).spec_port() == old(self).spec_port(),
            final(self).spec_ready() == spec_scan_ready(
                old(self).spec_ready(),
                old(self).spec_running(),
                spec_views(lines@),
            ),
            emits <= 1,
            emits == 1 <==> (!old(self).spec_ready() && final(self).spec_ready()),
    {
        let ghost views = spec_views(lines@);
        proof {
            assert(views.skip(0) =~= views);
        }
        let mut emits: usize = 0;
        let mut i: usize = 0;
        while i < lines.len()
            invariant
                old(self).wf(),
                self.wf(),
                views == spec_views(lines@),
                views.len() == lines@.len(),
                0 <= i <= lines@.len(),
                self.spec_pid() == old(self).spec_pid(),
                self.spec_port() == old(self).spec_port(),
                old(self).spec_ready() ==> self.spec_ready(),
                spec_scan_ready(old(self).spec_ready(), old(self).spec_running(), views)
                    == spec_scan_ready(self.spec_ready(), self.spec_running(), views.skip(i as int)),
                emits <= 1,
                emits == 1 <==> (!old(self).spec_ready() && self.spec_ready()),
            decreases lines@.len() - i,
        {
            proof {
                assert(views[i as int] == lines@[i as int]@);
                assert(views.skip(i as int)[0] == views[i as int]);
                assert(views.skip(i as int).drop_first() =~= views.skip(i + 1));
            }
            let emitted = self.observe_line(lines[i].as_str());
            if emitted {
                emits += 1;
            }
            i += 1;
        }
        proof {
            assert(views.skip(lines@.len() as int) =~= Seq::<Seq<char>>::empty());
        }
        emits
    }

    /// The one poll after the startup grace period. An already-exited child
    /// clears the tracked state and fails with the exit status and the tail
    /// of the log; a running child — or a failed status check, treated as
    /// probably fine — yields the start summary.
    pub fn poll_after_grace(&mut self, poll: ExitPoll, log_text: &str) -> (r: Result<
        StartSummary,
        StartError,
    >)
        requires
            old(self).wf(),
            old(self).spec_running(),
        ensures
            final(self).wf(),
            poll matches ExitPoll::Exited { code } ==> {
                &&& final(self).spec_pid() is None
                &&& final(self).spec_port() is None
                &&& !final(self).spec_ready()
                &&& r matches Err(StartError::ImmediateExit { status, excerpt })
                    && status == code
                    && spec_views(excerpt@) == spec_tail(
                    spec_split_lines(log_text@),
                    LOG_EXCERPT_LINES as int,
                )
            },
            !(poll matches ExitPoll::Exited { .. }) ==> {
                &&& *final(self) == *old(self)
                &&& r matches Ok(s) && old(self).spec_pid() == Some(s.pid)
                    && old(self).spec_port() == Some(s.port)
            },
    {
        match poll {
            ExitPoll::Exited { code } => {
                self.handle = None;
                self.port = None;
                self.ready = false;
                let lines = split_lines(log_text);
                let excerpt = tail_lines(&lines, LOG_EXCERPT_LINES);
                Err(StartError::ImmediateExit { status: code, excerpt })
            },
            _ => {
                let pid = self.handle.unwrap();
                let port = self.port.unwrap();
                Ok(StartSummary { pid, port })
            },
        }
    }

    /// A non-blocking liveness answer from one poll. An exited or
    /// unpollable child is dropped from the tracked state on the way.
    pub fn poll_running(&mut self, poll: ExitPoll) -> (r: bool)
        requires
            old(self).wf(),
        ensures
            final(self).wf(),
            r == (old(self).spec_running() && poll matches ExitPoll::StillRunning),
            r ==> *final(self) == *old(self),
            !r ==> final(self).spec_pid() is None && final(self).spec_port() is None
                && !final(self).spec_ready(),
    {
        if self.handle.is_none() {
            return false;
        }
        match poll {
            ExitPoll::StillRunning => true,
            _ => {
                self.handle = None;
                self.port = None;
                self.ready = false;
                false
            },
        }
    }

    /// Release the tracked process for termination. With no tracked process
    /// this refuses with `NotRunning`; otherwise the caller receives the
    /// identifier to kill (tree first, direct child as fallback) and the
    /// supervisor is stopped: no port, not ready.
    pub fn begin_stop(&mut self) -> (r: Result<u32, StopError>)
        requires
            old(self).wf(),
        ensures
            final(self).wf(),
            !old(self).spec_running() ==> r == Result::<u32, StopError>::Err(StopError::NotRunning)
                && *final(self) == *old(self),
            old(self).spec_running() ==> {
                &&& r matches Ok(pid) && old(self).spec_pid() == Some(pid)
                &&& !final(self).spec_running()
                &&& final(self).spec_port() is None
                &&& !final(self).spec_ready()
            },
    {
        match self.handle {
            None => Err(StopError::NotRunning),
            Some(pid) => {
                self.handle = None;
                self.port = None;
                self.ready = false;
                Ok(pid)
            },
        }
    }
}

/// Law: a stopped supervisor tracks no port and is not ready.
pub proof fn lemma_stopped_state(s: ServiceState)
    requires
        s.wf(),
        !s.spec_running(),
    ensures
        s.spec_port() is None,
        !s.spec_ready(),
{
}

/// The status report the caller assembles from filesystem and tool probes
/// plus the supervisor state.
#[derive(Clone, Debug)]
pub struct EngineStatus {
    pub uv_installed: bool,
    pub repo_cloned: bool,
    pub dependencies_synced: bool,
    pub engine_dir: String,
    pub server_running: bool,
    pub server_port: Option<u16>,
    pub server_log_path: String,
}

/// Raw observations the status report is derived from.
#[derive(Clone, Copy, Debug)]
pub struct StatusProbes {
    /// The tool binary exists on disk.
    pub uv_binary_exists: bool,
    /// Running the tool's version probe succeeded.
    pub uv_version_ok: bool,
    /// The managed project directory exists.
    pub engine_dir_exists: bool,
    /// The project manifest exists.
    pub pyproject_exists: bool,
    /// The server entry point exists.
    pub server_py_exists: bool,
    /// The isolated environment directory exists.
    pub venv_exists: bool,
    /// The environment's interpreter exists.
    pub venv_python_exists: bool,
    /// Running that interpreter through the tool succeeded.
    pub venv_python_runs: bool,
}

/// Derive the status report: installed means present and answering, cloned
/// means all project files present, synced additionally demands a working
/// interpreter in the environment.
pub fn check_engine_status(
    probes: &StatusProbes,
    state: &ServiceState,
    engine_dir: &str,
    log_path: &str,
) -> (r: EngineStatus)
    requires
        state.wf(),
    ensures
        r.uv_installed == (probes.uv_binary_exists && probes.uv_version_ok),
        r.repo_cloned == (probes.engine_dir_exists && probes.pyproject_exists
            && probes.server_py_exists),
        r.dependencies_synced == (r.repo_cloned && probes.venv_exists && probes.venv_python_exists
            && probes.venv_python_runs),
        r.engine_dir@ == engine_dir@,
        r.server_running == state.spec_running(),
        r.server_port == state.spec_port(),
        r.server_log_path@ == log_path@,
{
    let repo_cloned = probes.engine_dir_exists && probes.pyproject_exists
        && probes.server_py_exists;
    EngineStatus {
        uv_installed: probes.uv_binary_exists && probes.uv_version_ok,
        repo_cloned,
        dependencies_synced: repo_cloned && probes.venv_exists && probes.venv_python_exists
            && probes.venv_python_runs,
        engine_dir: String::from_str(engine_dir),
        server_running: state.has_process(),
        server_port: state.port(),
        server_log_path: String::from_str(log_path),
    }
}

/// Credential discovery in order: the configured value, then the first
/// environment variable, then the second. Absence is not an error.
pub fn resolve_hf_token(
    configured: &String,
    env_hf_token: Option<String>,
    env_hub_token: Option<String>,
) -> (r: Option<String>)
    ensures
        configured@.len() > 0 ==> {
            &&& r matches Some(t)
            &&& t@ == configured@
        },
        configured@.len() == 0 && env_hf_token is Some ==> r == env_hf_token,
        configured@.len() == 0 && env_hf_token is None ==> r == env_hub_token,
{
    if !configured.as_str().is_empty() {
        Some(configured.clone())
    } else if env_hf_token.is_some() {
        env_hf_token
    } else {
        env_hub_token
    }
}

/// The argument list of the dependency-sync subcommand.
pub fn sync_args() -> (r: Vec<String>)
    ensures
        r@.len() == 3,
        r@[0]@ == "sync"@,
        r@[1]@ == "--index-strategy"@,
        r@[2]@ == "unsafe-best-match"@,
{
    let mut args: Vec<String> = Vec::new();
    args.push(String::from_str("sync"));
    args.push(String::from_str("--index-strategy"));
    args.push(String::from_str("unsafe-best-match"));
    args
}

/// The argument list of the server launch command: an unbuffered
/// interpreter run of the entry point with the chosen port.
pub fn run_args(port: u16) -> (r: Vec<String>)
    ensures
        r@.len() == 6,
        r@[0]@ == "run"@,
        r@[1]@ == "python"@,
        r@[2]@ == "-u"@,
        r@[3]@ == "server.py"@,
        r@[4]@ == "--port"@,
        r@[5]@ == spec_dec_digits(port as nat),
{
    let mut args: Vec<String> = Vec::new();
    args.push(String::from_str("run"));
    args.push(String::from_str("python"));
    args.push(String::from_str("-u"));
    args.push(String::from_str("server.py"));
    args.push(String::from_str("--port"));
    args.push(decimal_string(port as u64));
    args
}

/// The six environment variables every tool invocation receives, pointing
/// each tool-scoped location at the isolated layout.
pub fn sync_env_vars(paths: &EnvironmentPaths) -> (r: Vec<(String, String)>)
    ensures
        r@.len() == 6,
        r@[0].0@ == "UV_CACHE_DIR"@ && r@[0].1@ == paths.cache_dir@,
        r@[1].0@ == "UV_NO_CONFIG"@ && r@[1].1@ == "1"@,
        r@[2].0@ == "UV_PYTHON_INSTALL_DIR"@ && r@[2].1@ == paths.python_install_dir@,
        r@[3].0@ == "UV_PYTHON_BIN_DIR"@ && r@[3].1@ == paths.python_bin_dir@,
        r@[4].0@ == "UV_TOOL_DIR"@ && r@[4].1@ == paths.tool_dir@,
        r@[5].0@ == "UV_TOOL_BIN_DIR"@ && r@[5].1@ == paths.tool_bin_dir@,
{
    let mut vars: Vec<(String, String)> = Vec::new();
    vars.push((String::from_str("UV_CACHE_DIR"), paths.cache_dir.clone()));
    vars.push((String::from_str("UV_NO_CONFIG"), String::from_str("1")));
    vars.push((String::from_str("UV_PYTHON_INSTALL_DIR"), paths.python_install_dir.clone()));
    vars.push((String::from_str("UV_PYTHON_BIN_DIR"), paths.python_bin_dir.clone()));
    vars.push((String::from_str("UV_TOOL_DIR"), paths.tool_dir.clone()));
    vars.push((String::from_str("UV_TOOL_BIN_DIR"), paths.tool_bin_dir.clone()));
    vars
}

/// The launch environment: the six tool variables, unbuffered output, and —
/// when a credential was resolved — the token under both compatibility
/// names.
pub fn run_env_vars(paths: &EnvironmentPaths, token: &Option<String>) -> (r: Vec<(String, String)>)
    ensures
        token is Some ==> r@.len() == 9,
        token is None ==> r@.len() == 7,
        r@[0].0@ == "UV_CACHE_DIR"@ && r@[0].1@ == paths.cache_dir@,
        r@[1].0@ == "UV_NO_CONFIG"@ && r@[1].1@ == "1"@,
        r@[2].0@ == "UV_PYTHON_INSTALL_DIR"@ && r@[2].1@ == paths.python_install_dir@,
        r@[3].0@ == "UV_PYTHON_BIN_DIR"@ && r@[3].1@ == paths.python_bin_dir@,
        r@[4].0@ == "UV_TOOL_DIR"@ && r@[4].1@ == paths.tool_dir@,
        r@[5].0@ == "UV_TOOL_BIN_DIR"@ && r@[5].1@ == paths.tool_bin_dir@,
        r@[6].0@ == "PYTHONUNBUFFERED"@ && r@[6].1@ == "1"@,
        token matches Some(t) ==> r@[7].0@ == "HF_TOKEN"@ && r@[7].1@ == t@
            && r@[8].0@ == "HUGGING_FACE_HUB_TOKEN"@ && r@[8].1@ == t@,
{
    let mut vars = sync_env_vars(paths);
    vars.push((String::from_str("PYTHONUNBUFFERED"), String::from_str("1")));
    match token {
        Some(t) => {
            vars.push((String::from_str("HF_TOKEN"), t.clone()));
            vars.push((String::from_str("HUGGING_FACE_HUB_TOKEN"), t.clone()));
        },
        None => {},
    }
    vars
}

/// The summary a successful start reports.
pub fn start_message(pid: u32, port: u16) -> (r: String)
    ensures
        r@ == "Server started on port "@ + spec_dec_digits(port as nat) + " (PID: "@
            + spec_dec_digits(pid as nat) + ")"@,
{
    let mut s = String::from_str("Server started on port ");
    s.append(decimal_string(port as u64).as_str());
    s.append(" (PID: ");
    s.append(decimal_string(pid as u64).as_str());
    s.append(")");
    s
}

/// The summary a successful stop reports.
pub fn stop_message(pid: u32) -> (r: String)
    ensures
        r@ == "Server stopped (PID: "@ + spec_dec_digits(pid as nat) + ")"@,
{
    let mut s = String::from_str("Server stopped (PID: ");
    s.append(decimal_string(pid as u64).as_str());
    s.append(")");
    s
}

} // verus!
