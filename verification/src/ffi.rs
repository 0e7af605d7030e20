//! The operations that a shell performs on the one prompt-rendering session
//! of its process, with the decisions the library takes on each of them.
//!
//! A session is created by `ssp_init`, torn down by `ssp_shutdown`, used by
//! `ssp_render` and inspected by `ssp_stats`. Creating again while a session
//! exists and tearing down while none exists are both accepted and change
//! nothing. A process that was forked from the one that created the session
//! is refused on every call, before anything else is looked at.
//!
//! The session itself, and the work of creating it, rendering with it and
//! reading its counters, belong to the caller: each operation receives that
//! work as a closure and decides whether and with what it is run.

use vstd::prelude::*;
use crate::convert::{
    bytes_view, cstr_array_to_vec, cstr_to_option_string, decoded_list, decoded_opt,
    entry_list_view, string_list_view, string_view,
};

verus! {

/// The prompt that a render produces.
#[derive(Clone, Copy, Debug, PartialEq, Eq, Structural)]
pub enum PromptTarget {
    Main,
    Right,
    Continuation,
}

/// The prompt that a request's target code selects: 1 the right prompt,
/// 2 the continuation prompt, anything else the main prompt.
pub open spec fn target_of(code: i32) -> PromptTarget {
    if code == 1 {
        PromptTarget::Right
    } else if code == 2 {
        PromptTarget::Continuation
    } else {
        PromptTarget::Main
    }
}

/// Why a call on the session was refused or failed.
#[derive(Debug)]
pub enum FfiError {
    /// A required argument was missing.
    NullArgument,
    /// No session exists.
    NotInitialized,
    /// The caller is a process forked from the one that owns the session.
    ForkedChild,
    /// The session's own work failed, with its message.
    Failed(String),
}

impl FfiError {
    /// The text that the shell receives for this error.
    pub open spec fn spec_message(&self) -> Seq<char> {
        match self {
            FfiError::NullArgument => "null argument"@,
            FfiError::NotInitialized => "session is not initialized"@,
            FfiError::ForkedChild => "refusing call in forked child process"@,
            FfiError::Failed(message) => message@,
        }
    }

    /// The text that the shell receives for this error.
    pub fn message(&self) -> (m: String)
        ensures
            m@ == self.spec_message(),
    {
        match self {
            FfiError::NullArgument => "null argument".to_owned(),
            FfiError::NotInitialized => "session is not initialized".to_owned(),
            FfiError::ForkedChild => "refusing call in forked child process".to_owned(),
            FfiError::Failed(message) => message.clone(),
        }
    }
}

/// The properties of one prompt render, decoded from a request.
pub struct RenderProperties {
    pub status_code: Option<String>,
    pub pipestatus: Option<Vec<String>>,
    pub terminal_width: usize,
    pub path: Option<String>,
    pub logical_path: Option<String>,
    pub cmd_duration: Option<String>,
    pub keymap: String,
    pub jobs: i64,
    pub shlvl: Option<i64>,
}

/// `RenderProperties` with its text taken as characters.
pub struct PropertiesView {
    pub status_code: Option<Seq<char>>,
    pub pipestatus: Option<Seq<Seq<char>>>,
    pub terminal_width: usize,
    pub path: Option<Seq<char>>,
    pub logical_path: Option<Seq<char>>,
    pub cmd_duration: Option<Seq<char>>,
    pub keymap: Seq<char>,
    pub jobs: i64,
    pub shlvl: Option<i64>,
}

impl View for RenderProperties {
    type V = PropertiesView;

    open spec fn view(&self) -> PropertiesView {
        PropertiesView {
            status_code: string_view(self.status_code),
            pipestatus: string_list_view(self.pipestatus),
            terminal_width: self.terminal_width,
            path: string_view(self.path),
            logical_path: string_view(self.logical_path),
            cmd_duration: string_view(self.cmd_duration),
            keymap: self.keymap@,
            jobs: self.jobs,
            shlvl: self.shlvl,
        }
    }
}

/// One prompt request as the shell hands it over: each C string as its bytes
/// (without the terminating NUL), `None` where the shell passed no string.
#[allow(non_camel_case_types)]
pub struct ssp_render_input {
    /// Status code of the previously run command.
    pub status: Option<Vec<u8>>,
    /// The pipe status strings; `None` when the shell passed no array.
    pub pipestatus: Option<Vec<Option<Vec<u8>>>>,
    /// Terminal width in columns (0 = detect).
    pub terminal_width: usize,
    /// Working directory (absent = the process's own).
    pub path: Option<Vec<u8>>,
    /// Logical working directory.
    pub logical_path: Option<Vec<u8>>,
    /// Duration of the last command in milliseconds.
    pub cmd_duration: Option<Vec<u8>>,
    /// Current keymap name (absent = "viins").
    pub keymap: Option<Vec<u8>>,
    /// Number of running jobs.
    pub jobs: i64,
    /// Current SHLVL (negative = none).
    pub shlvl: i64,
    /// Prompt target code: 0 main, 1 right, 2 continuation.
    pub target: i32,
}

impl ssp_render_input {
    /// The properties that this request asks to render with.
    pub open spec fn spec_properties(&self) -> PropertiesView {
        PropertiesView {
            status_code: decoded_opt(bytes_view(self.status)),
            pipestatus: decoded_list(entry_list_view(self.pipestatus)),
            terminal_width: self.terminal_width,
            path: decoded_opt(bytes_view(self.path)),
            logical_path: decoded_opt(bytes_view(self.logical_path)),
            cmd_duration: decoded_opt(bytes_view(self.cmd_duration)),
            keymap: match decoded_opt(bytes_view(self.keymap)) {
                Some(k) => k,
                None => "viins"@,
            },
            jobs: self.jobs,
            shlvl: if self.shlvl >= 0 {
                Some(self.shlvl)
            } else {
                None
            },
        }
    }

    /// Decodes the request into render properties.
    pub fn to_properties(&self, _default_target: PromptTarget) -> (props: RenderProperties)
        ensures
            props@ == self.spec_properties(),
    {
        let keymap = match cstr_to_option_string(&self.keymap) {
            Some(k) => k,
            None => "viins".to_owned(),
        };
        RenderProperties {
            status_code: cstr_to_option_string(&self.status),
            pipestatus: cstr_array_to_vec(&self.pipestatus),
            terminal_width: self.terminal_width,
            path: cstr_to_option_string(&self.path),
            logical_path: cstr_to_option_string(&self.logical_path),
            cmd_duration: cstr_to_option_string(&self.cmd_duration),
            keymap,
            jobs: self.jobs,
            shlvl: if self.shlvl >= 0 {
                Some(self.shlvl)
            } else {
                None
            },
        }
    }

    /// The prompt that this request asks for.
    pub fn target(&self) -> (t: PromptTarget)
        ensures
            t == target_of(self.target),
    {
        match self.target {
            1 => PromptTarget::Right,
            2 => PromptTarget::Continuation,
            _ => PromptTarget::Main,
        }
    }
}

/// A snapshot of the session's cache counters.
#[allow(non_camel_case_types)]
#[derive(Clone, Copy, Debug)]
pub struct ssp_out_stats {
    pub config_hits: u64,
    pub config_misses: u64,
    pub repo_status_hits: u64,
    pub repo_status_misses: u64,
    pub git_repo_hits: u64,
    pub git_repo_misses: u64,
    pub git_metrics_hits: u64,
    pub git_metrics_misses: u64,
    pub dir_contents_hits: u64,
    pub dir_contents_misses: u64,
    pub binary_path_hits: u64,
    pub binary_path_misses: u64,
    pub renders: u64,
}

impl ssp_out_stats {
    /// Every counter is zero.
    pub open spec fn is_zero(&self) -> bool {
        &&& self.config_hits == 0
        &&& self.config_misses == 0
        &&& self.repo_status_hits == 0
        &&& self.repo_status_misses == 0
        &&& self.git_repo_hits == 0
        &&& self.git_repo_misses == 0
        &&& self.git_metrics_hits == 0
        &&& self.git_metrics_misses == 0
        &&& self.dir_contents_hits == 0
        &&& self.dir_contents_misses == 0
        &&& self.binary_path_hits == 0
        &&& self.binary_path_misses == 0
        &&& self.renders == 0
    }
}

impl Default for ssp_out_stats {
    fn default() -> (stats: Self)
        ensures
            stats.is_zero(),
    {
        ssp_out_stats {
            config_hits: 0,
            config_misses: 0,
            repo_status_hits: 0,
            repo_status_misses: 0,
            git_repo_hits: 0,
            git_repo_misses: 0,
            git_metrics_hits: 0,
            git_metrics_misses: 0,
            dir_contents_hits: 0,
            dir_contents_misses: 0,
            binary_path_hits: 0,
            binary_path_misses: 0,
            renders: 0,
        }
    }
}

/// A call from process `pid` is refused when a session was created by
/// another process (`owner_pid` is 0 while no session exists): the caller
/// is then a forked child that must not touch the inherited session.
pub open spec fn refuses_caller(owner_pid: u32, pid: u32) -> bool {
    owner_pid != 0 && owner_pid != pid
}

/// Refuses a call from a process other than the one that created the session.
pub fn guard_fork(owner_pid: u32, pid: u32) -> (res: Result<(), FfiError>)
    ensures
        refuses_caller(owner_pid, pid) ==> res == Err::<(), FfiError>(FfiError::ForkedChild),
        !refuses_caller(owner_pid, pid) ==> res == Ok::<(), FfiError>(()),
        res is Ok <==> (owner_pid == 0 || owner_pid == pid),
{
    if owner_pid != 0 && owner_pid != pid {
        Err(FfiError::ForkedChild)
    } else {
        Ok(())
    }
}

/// What a `SessionHost` holds: the session, if any, and the id of the
/// process that created it (0 after a shutdown and before the first creation).
pub struct HostState<S> {
    pub session: Option<S>,
    pub owner_pid: u32,
}

/// The place where the one session of a process lives.
pub struct SessionHost<S> {
    session: Option<S>,
    owner_pid: u32,
}

impl<S> View for SessionHost<S> {
    type V = HostState<S>;

    closed spec fn view(&self) -> HostState<S> {
        HostState { session: self.session, owner_pid: self.owner_pid }
    }
}

impl<S> HostState<S> {
    /// No owner is recorded while there is no session, so that a process
    /// without a session refuses nobody.
    pub open spec fn owner_cleared_when_idle(self) -> bool {
        self.session is None ==> self.owner_pid == 0
    }
}

/// Whether `ssp_init` creates a session: the caller is accepted and none exists.
pub open spec fn init_creates<S>(h: HostState<S>, pid: u32) -> bool {
    !refuses_caller(h.owner_pid, pid) && h.session is None
}

/// The host as `ssp_init` leaves it, and what it returns, when it creates
/// nothing: a forked caller is refused, and otherwise a session exists and
/// the call succeeds; the host is unchanged either way.
pub open spec fn init_skipped<S>(h: HostState<S>, pid: u32) -> (HostState<S>, Result<(), FfiError>) {
    if refuses_caller(h.owner_pid, pid) {
        (h, Err(FfiError::ForkedChild))
    } else {
        (h, Ok(()))
    }
}

/// The host as `ssp_init` leaves it, and what it returns, when the creation
/// that it runs produces `made`: a new session is installed with the caller
/// as its owner, and a failure leaves the host unchanged.
pub open spec fn init_installed<S>(h: HostState<S>, pid: u32, made: Result<S, String>) -> (
    HostState<S>,
    Result<(), FfiError>,
) {
    match made {
        Ok(session) => (HostState { session: Some(session), owner_pid: pid }, Ok(())),
        Err(message) => (h, Err(FfiError::Failed(message))),
    }
}

/// The host as `ssp_shutdown` leaves it and what it returns.
pub open spec fn shutdown_step<S>(h: HostState<S>, pid: u32) -> (
    HostState<S>,
    Result<Option<S>, FfiError>,
) {
    if refuses_caller(h.owner_pid, pid) {
        (h, Err(FfiError::ForkedChild))
    } else {
        (HostState { session: None, owner_pid: 0 }, Ok(h.session))
    }
}

/// The error with which a render stops before the session is looked at,
/// checked in this order: no output slot, no request, a forked caller.
pub open spec fn render_precheck_gate(owner_pid: u32, pid: u32, out_given: bool, input_given: bool) -> Option<FfiError> {
    if !out_given {
        Some(FfiError::NullArgument)
    } else if !input_given {
        Some(FfiError::NullArgument)
    } else if refuses_caller(owner_pid, pid) {
        Some(FfiError::ForkedChild)
    } else {
        None
    }
}

/// The error with which `ssp_render` stops before rendering: those of
/// `render_precheck_gate`, then no session.
pub open spec fn render_gate<S>(h: HostState<S>, pid: u32, out_given: bool, input_given: bool) -> Option<FfiError> {
    match render_precheck_gate(h.owner_pid, pid, out_given, input_given) {
        Some(e) => Some(e),
        None => if h.session is None {
            Some(FfiError::NotInitialized)
        } else {
            None
        },
    }
}

/// The error with which a counter read stops before the session is looked
/// at, checked in this order: no output slot, a forked caller.
pub open spec fn stats_precheck_gate(owner_pid: u32, pid: u32, out_given: bool) -> Option<FfiError> {
    if !out_given {
        Some(FfiError::NullArgument)
    } else if refuses_caller(owner_pid, pid) {
        Some(FfiError::ForkedChild)
    } else {
        None
    }
}

/// The error with which `ssp_stats` stops before reading the counters: those
/// of `stats_precheck_gate`, then no session.
pub open spec fn stats_gate<S>(h: HostState<S>, pid: u32, out_given: bool) -> Option<FfiError> {
    match stats_precheck_gate(h.owner_pid, pid, out_given) {
        Some(e) => Some(e),
        None => if h.session is None {
            Some(FfiError::NotInitialized)
        } else {
            None
        },
    }
}

/// The checks of a render that need no session, in their order; a forked
/// child can run them with the recorded owner without taking any lock.
pub fn render_precheck(owner_pid: u32, pid: u32, out_given: bool, input_given: bool) -> (res: Option<FfiError>)
    ensures
        res == render_precheck_gate(owner_pid, pid, out_given, input_given),
        res is None <==> (out_given && input_given && (owner_pid == 0 || owner_pid == pid)),
        (!out_given || !input_given) ==> res == Some(FfiError::NullArgument),
        (out_given && input_given && owner_pid != 0 && owner_pid != pid) ==> res == Some(
            FfiError::ForkedChild,
        ),
{
    if !out_given || !input_given {
        Some(FfiError::NullArgument)
    } else if owner_pid != 0 && owner_pid != pid {
        Some(FfiError::ForkedChild)
    } else {
        None
    }
}

/// The checks of a counter read that need no session, in their order.
pub fn stats_precheck(owner_pid: u32, pid: u32, out_given: bool) -> (res: Option<FfiError>)
    ensures
        res == stats_precheck_gate(owner_pid, pid, out_given),
        res is None <==> (out_given && (owner_pid == 0 || owner_pid == pid)),
        !out_given ==> res == Some(FfiError::NullArgument),
        (out_given && owner_pid != 0 && owner_pid != pid) ==> res == Some(FfiError::ForkedChild),
{
    if !out_given {
        Some(FfiError::NullArgument)
    } else if owner_pid != 0 && owner_pid != pid {
        Some(FfiError::ForkedChild)
    } else {
        None
    }
}

impl<S> SessionHost<S> {
    /// A host without a session.
    pub fn new() -> (host: Self)
        ensures
            host@.session is None,
            host@.owner_pid == 0,
    {
        SessionHost { session: None, owner_pid: 0 }
    }

    /// The id of the process that created the session (0 = none).
    pub fn owner_pid(&self) -> (pid: u32)
        ensures
            pid == self@.owner_pid,
    {
        self.owner_pid
    }

    /// Whether a session exists.
    pub fn is_active(&self) -> (active: bool)
        ensures
            active == self@.session is Some,
    {
        self.session.is_some()
    }

    /// Runs `f` on the session, or fails when there is none; a failure of
    /// `f` comes back as `FfiError::Failed` with its message.
    pub fn with_session<T, F: FnOnce(&S) -> Result<T, String>>(&self, f: F) -> (res: Result<
        T,
        FfiError,
    >)
        requires
            forall|s: &S| f.requires((s,)),
        ensures
            self@.session is None ==> res == Err::<T, FfiError>(FfiError::NotInitialized),
            self@.session is Some ==> exists|r: Result<T, String>|
                #[trigger] f.ensures((&self@.session.unwrap(),), r) && res == failed_with(r),
    {
        match &self.session {
            None => Err(FfiError::NotInitialized),
            Some(session) => match f(session) {
                Ok(value) => Ok(value),
                Err(message) => Err(FfiError::Failed(message)),
            },
        }
    }
}

/// The outcome of a session's work, its failure turned into an `FfiError`.
pub open spec fn failed_with<T>(r: Result<T, String>) -> Result<T, FfiError> {
    match r {
        Ok(value) => Ok(value),
        Err(message) => Err(FfiError::Failed(message)),
    }
}

/// Creates the session of the process, unless one exists.
///
/// A forked child is refused and nothing changes. When a session exists the
/// call succeeds and changes nothing. Otherwise `create` runs once: the
/// session it makes is installed with `pid` as its owner, or its failure is
/// returned and nothing changes. After `ssp_shutdown` this creates a fresh
/// session.
pub fn ssp_init<S, F: FnOnce() -> Result<S, String>>(host: &mut SessionHost<S>, pid: u32, create: F) -> (res: Result<(), FfiError>)
    requires
        create.requires(()),
    ensures
        !init_creates(old(host)@, pid) ==> (final(host)@, res) == init_skipped(old(host)@, pid),
        init_creates(old(host)@, pid) ==> exists|made: Result<S, String>|
            #[trigger] create.ensures((), made) && (final(host)@, res) == init_installed(
                old(host)@,
                pid,
                made,
            ),
{
    if let Err(e) = guard_fork(host.owner_pid, pid) {
        return Err(e);
    }
    if host.session.is_none() {
        match create() {
            Ok(session) => {
                host.session = Some(session);
                host.owner_pid = pid;
            },
            Err(message) => {
                return Err(FfiError::Failed(message));
            },
        }
    }
    Ok(())
}

/// Tears the session of the process down.
///
/// A forked child is refused and nothing changes. Otherwise the session, if
/// any, is taken out and handed back so that the caller can drop it (which
/// stops its workers) outside any lock, and the owner is cleared; without a
/// session this is a successful no-op.
pub fn ssp_shutdown<S>(host: &mut SessionHost<S>, pid: u32) -> (res: Result<Option<S>, FfiError>)
    ensures
        (final(host)@, res) == shutdown_step(old(host)@, pid),
{
    if let Err(e) = guard_fork(host.owner_pid, pid) {
        return Err(e);
    }
    host.owner_pid = 0;
    let taken = host.session.take();
    Ok(taken)
}

/// Renders one prompt with the session.
///
/// Without an output slot the call fails with `NullArgument` at once. The
/// slot is otherwise cleared before anything else, and stays clear on every
/// failure: a missing request (`NullArgument`), a forked caller
/// (`ForkedChild`), no session (`NotInitialized`), or a failed render
/// (`Failed`). Otherwise `render` runs once on the session with the
/// properties and the target that the request decodes to, and the text it
/// returns goes into the slot. The host is only read.
pub fn ssp_render<S, F: FnOnce(&S, RenderProperties, PromptTarget) -> Result<String, String>>(
    host: &SessionHost<S>,
    pid: u32,
    input: Option<&ssp_render_input>,
    out: Option<&mut Option<String>>,
    render: F,
) -> (res: Result<(), FfiError>)
    requires
        forall|s: &S, p: RenderProperties, t: PromptTarget| render.requires((s, p, t)),
    ensures
        render_gate(host@, pid, out is Some, input is Some) matches Some(e) ==> res == Err::<
            (),
            FfiError,
        >(e),
        match out {
            None => true,
            Some(slot) => match render_gate(host@, pid, true, input is Some) {
                Some(_) => *final(slot) == None::<String>,
                None => exists|props: RenderProperties, r: Result<String, String>|
                    #[trigger] render.ensures(
                        (&host@.session.unwrap(), props, target_of(input.unwrap().target)),
                        r,
                    ) && props@ == input.unwrap().spec_properties() && match r {
                        Ok(text) => {
                            &&& res == Ok::<(), FfiError>(())
                            &&& *final(slot) == Some(text)
                        },
                        Err(message) => {
                            &&& res == Err::<(), FfiError>(FfiError::Failed(message))
                            &&& *final(slot) == None::<String>
                        },
                    },
            },
        },
{
    if let Some(e) = render_precheck(host.owner_pid, pid, out.is_some(), input.is_some()) {
        if let Some(slot) = out {
            *slot = None;
        }
        return Err(e);
    }
    let slot = out.unwrap();
    *slot = None;
    let request = input.unwrap();
    let properties = request.to_properties(request.target());
    let target = request.target();
    let ghost props = properties;
    let run = |session: &S| -> (r: Result<String, String>)
        ensures
            render.ensures((session, props, target), r),
        { render(session, properties, target) };
    match host.with_session(run) {
        Ok(text) => {
            *slot = Some(text);
            Ok(())
        },
        Err(e) => Err(e),
    }
}

/// Reads the session's cache counters into `out`.
///
/// Without an output slot the call fails with `NullArgument`; a forked
/// caller is refused with `ForkedChild`, and without a session the call fails
/// with `NotInitialized`; in these cases the slot is left as it was.
/// Otherwise `snapshot` runs once on the session and its result is written
/// to the slot. The host is only read.
pub fn ssp_stats<S, F: FnOnce(&S) -> ssp_out_stats>(
    host: &SessionHost<S>,
    pid: u32,
    out: Option<&mut ssp_out_stats>,
    snapshot: F,
) -> (res: Result<(), FfiError>)
    requires
        forall|s: &S| snapshot.requires((s,)),
    ensures
        stats_gate(host@, pid, out is Some) matches Some(e) ==> res == Err::<(), FfiError>(e),
        stats_gate(host@, pid, out is Some) is None ==> res == Ok::<(), FfiError>(()),
        match out {
            None => true,
            Some(slot) => match stats_gate(host@, pid, true) {
                Some(_) => *final(slot) == *slot,
                None => snapshot.ensures((&host@.session.unwrap(),), *final(slot)),
            },
        },
{
    if let Some(e) = stats_precheck(host.owner_pid, pid, out.is_some()) {
        return Err(e);
    }
    let slot = out.unwrap();
    let run = |session: &S| -> (r: Result<ssp_out_stats, String>)
        ensures
            r matches Ok(stats) && snapshot.ensures((session,), stats),
        { Ok(snapshot(session)) };
    match host.with_session(run) {
        Ok(stats) => {
            *slot = stats;
            Ok(())
        },
        Err(e) => Err(e),
    }
}

} // verus!
