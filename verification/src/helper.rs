//! Keeping exactly one session helper alive in whichever session the user is
//! signed in to.
//!
//! The service runs in Session 0 with no desktop; everything visual lives in a
//! helper process in the user's session. The supervisor has to respawn a
//! crashed helper within seconds, follow the user across log-outs and fast
//! user switches, and back off when the helper is crash-looping.
//!
//! [`Supervisor`] is the decision half of that loop: the service asks Windows
//! which session is at the console, polls the child, and launches processes;
//! this type decides what each observation means and when the next launch is
//! due.

use std::sync::atomic::{AtomicBool, AtomicU32, AtomicU64};
use vstd::prelude::*;
use std::path::PathBuf;
use crate::paths::{join_path, path_joined};
use crate::text::join3;

verus! {

/// How often the supervisor checks on the helper, in milliseconds.
pub const LIVENESS_POLL_MS: u64 = 250;
/// Delay before the first respawn, in milliseconds.
pub const RESPAWN_BASE_DELAY_MS: u64 = 250;
/// Ceiling on the respawn delay once a helper is crash-looping.
pub const RESPAWN_MAX_DELAY_MS: u64 = 30_000;
/// How long a helper must survive before it counts as healthy.
pub const HEALTHY_AFTER_MS: u64 = 20_000;

/// What `WTSGetActiveConsoleSessionId` reports when no session is attached to
/// the physical console.
pub const NO_ACTIVE_SESSION: u32 = 0xFFFF_FFFF;

/// Where the helper looks for the service.
pub const PIPE_NAME: &'static str = "\\\\.\\pipe\\osprey-helper";

/// The pipe's access: `D:P` protects the DACL from inheritance; SYSTEM (`SY`)
/// and the built-in Administrators (`BA`) get full control, and interactive
/// users (`IU`), the only ones who could be running the helper, read and
/// write. Nobody else.
pub const PIPE_SDDL: &'static str = "D:P(A;;GA;;;SY)(A;;GA;;;BA)(A;;GRGW;;;IU)";

/// One helper message may not exceed this: the protocol is a handful of short
/// control messages, and anything larger is a bug or an attack.
pub const MAX_MESSAGE: usize = 8192;

/// The pipe's in and out buffer size.
pub const PIPE_BUFFER: u32 = 16384;

/// The desktop a helper is launched onto.
pub const INTERACTIVE_DESKTOP: &'static str = "winsta0\\default";

/// The command line a helper is launched with: the executable path in double
/// quotes, a space, then the arguments.
pub fn helper_command_line(exe: &str, args: &str) -> (s: String)
    ensures
        s@ == "\""@ + exe@ + "\" "@ + args@,
{
    join3("\"", exe, "\" ").concat(args)
}

/// The length of the message a pipe read delivered into a buffer of
/// `capacity` bytes, or `None` when nothing was read (the helper closed its
/// end, the ordinary way an attachment ends at logout).
pub fn message_end(read: u32, capacity: usize) -> (r: Option<usize>)
    ensures
        read == 0 ==> r is None,
        read != 0 ==> r == Some(if read < capacity { read as usize } else { capacity }),
{
    if read == 0 {
        None
    } else if (read as u64) < (capacity as u64) {
        Some(read as usize)
    } else {
        Some(capacity)
    }
}

/// The helper executable's file name on Windows.
pub const HELPER_EXE_WINDOWS: &'static str = "osprey-helper.exe";
/// The helper executable's file name elsewhere.
pub const HELPER_EXE: &'static str = "osprey-helper";

/// Where the helper executable sits: beside the service binary, in
/// `directory`. Deliberately not searched for on `PATH`, which would let
/// anything that can write a `PATH` directory choose what the service
/// launches into the user's session.
pub fn helper_executable_in(directory: PathBuf, windows: bool) -> (p: PathBuf)
    ensures
        p == path_joined(directory, if windows { HELPER_EXE_WINDOWS@ } else { HELPER_EXE@ }),
{
    if windows {
        join_path(&directory, HELPER_EXE_WINDOWS)
    } else {
        join_path(&directory, HELPER_EXE)
    }
}

/// The console session for a raw `WTSGetActiveConsoleSessionId` answer: the
/// sentinel means there is none.
pub fn console_session_from_raw(raw: u32) -> (r: Option<u32>)
    ensures
        r == if raw == NO_ACTIVE_SESSION { None::<u32> } else { Some(raw) },
{
    if raw == NO_ACTIVE_SESSION { None } else { Some(raw) }
}

/// The session a user is signed in to at the physical console, on a platform
/// that has no console sessions: always none.
pub fn active_console_session() -> (r: Option<u32>)
    ensures
        r is None,
{
    None
}

/// Live view of the helper, shared with the threads that report on it.
#[derive(Debug, Default)]
pub struct HelperStatus {
    running: AtomicBool,
    starts: AtomicU64,
    session: AtomicU32,
}

impl HelperStatus {
    /// Whether a helper is currently running. Another thread may change this at
    /// any moment, so nothing is promised about the value read.
    pub fn is_running(&self) -> bool {
        self.running.load(std::sync::atomic::Ordering::Relaxed)
    }

    /// How many helpers have been started since the service came up.
    pub fn starts(&self) -> u64 {
        self.starts.load(std::sync::atomic::Ordering::Relaxed)
    }

    /// The session the current helper is in, or 0 if there is none.
    pub fn session(&self) -> u32 {
        self.session.load(std::sync::atomic::Ordering::Relaxed)
    }

    /// Record that a helper was started in `session`.
    pub fn record_start(&self, session: u32) {
        self.running.store(true, std::sync::atomic::Ordering::Relaxed);
        self.session.store(session, std::sync::atomic::Ordering::Relaxed);
        self.starts.fetch_add(1, std::sync::atomic::Ordering::Relaxed);
    }

    /// Record that no helper is running, and so no session either.
    pub fn record_stop(&self) {
        self.running.store(false, std::sync::atomic::Ordering::Relaxed);
        self.session.store(0, std::sync::atomic::Ordering::Relaxed);
    }
}

/// The respawn delay after a failure: doubled, and capped at the ceiling.
pub open spec fn backed_off(delay: u64) -> u64 {
    if 2 * delay > RESPAWN_MAX_DELAY_MS { RESPAWN_MAX_DELAY_MS } else { (2 * delay) as u64 }
}

/// The respawn delay after a failure: doubled, and capped at
/// [`RESPAWN_MAX_DELAY_MS`].
pub fn next_respawn_delay(delay: u64) -> (d: u64)
    ensures
        d == backed_off(delay),
        d <= RESPAWN_MAX_DELAY_MS,
{
    if delay > RESPAWN_MAX_DELAY_MS / 2 { RESPAWN_MAX_DELAY_MS } else { delay * 2 }
}

/// The delay after `n` consecutive failures starting from `delay`.
pub open spec fn backed_off_times(delay: u64, n: nat) -> u64
    decreases n,
{
    if n == 0 { delay } else { backed_off(backed_off_times(delay, (n - 1) as nat)) }
}

/// Doubling from the base delay never passes the ceiling, and reaches it
/// after seven consecutive failures, where it stays.
pub proof fn lemma_backoff_reaches_the_ceiling(n: nat)
    ensures
        backed_off_times(RESPAWN_BASE_DELAY_MS, n) <= RESPAWN_MAX_DELAY_MS,
        backed_off_times(RESPAWN_BASE_DELAY_MS, n) >= RESPAWN_BASE_DELAY_MS,
        n >= 7 ==> backed_off_times(RESPAWN_BASE_DELAY_MS, n) == RESPAWN_MAX_DELAY_MS,
    decreases n,
{
    if n > 0 {
        lemma_backoff_reaches_the_ceiling((n - 1) as nat);
        if n <= 7 {
            reveal_with_fuel(backed_off_times, 8);
        }
    }
}

/// A helper process the supervisor launched.
#[derive(Debug, Clone, Copy, PartialEq, Eq)]
pub struct Child {
    pub pid: u32,
    pub session: u32,
}

/// What polling the child's exit status found.
#[derive(Debug, Clone, Copy, PartialEq, Eq)]
pub enum ExitCheck {
    /// Still running.
    Running,
    /// Exited with this code.
    Exited(u32),
    /// The status could not be read; the helper is assumed gone.
    Failed,
}

/// What the status display should be told after a step.
#[derive(Debug, Clone, Copy, PartialEq, Eq)]
pub enum StatusChange {
    /// Nothing changed.
    Unchanged,
    /// No helper is running, so the reported session goes back to 0.
    Stopped,
    /// A helper started in this session.
    Started { session: u32 },
}

/// The supervisor's memory between polls. Times are milliseconds on the
/// service's monotonic clock.
#[derive(Debug, Clone, Copy, PartialEq, Eq)]
pub struct Supervisor {
    pub child: Option<Child>,
    pub delay_ms: u64,
    pub started_at_ms: Option<u64>,
    pub retry_at_ms: Option<u64>,
}

/// `a + b`, saturating at `u64::MAX`.
pub open spec fn sat_add(a: u64, b: u64) -> u64 {
    if a + b > u64::MAX { u64::MAX } else { (a + b) as u64 }
}

impl Supervisor {
    /// The supervisor's invariant: the respawn delay stays between the base and
    /// the ceiling, and a start time is recorded exactly while a child is
    /// held.
    pub open spec fn wf(&self) -> bool {
        &&& RESPAWN_BASE_DELAY_MS <= self.delay_ms <= RESPAWN_MAX_DELAY_MS
        &&& (self.child is Some) == (self.started_at_ms is Some)
    }

    /// No helper yet, and the first start is due immediately.
    pub fn new() -> (s: Self)
        ensures
            s.wf(),
            s.child is None,
            s.delay_ms == RESPAWN_BASE_DELAY_MS,
            s.retry_at_ms is None,
    {
        Supervisor { child: None, delay_ms: RESPAWN_BASE_DELAY_MS, started_at_ms: None, retry_at_ms: None }
    }

    /// React to the console session read at the top of a poll.
    ///
    /// A helper whose session is no longer the console's is stale: logging out
    /// ended its session, or a fast user switch moved the console elsewhere.
    /// That is not a crash, so the next start is prompt.
    pub fn observe_session(&mut self, session: Option<u32>) -> (c: StatusChange)
        requires
            old(self).wf(),
        ensures
            final(self).wf(),
            match old(self).child {
                Some(child) if session != Some(child.session) => {
                    &&& final(self).child is None
                    &&& final(self).started_at_ms is None
                    &&& final(self).delay_ms == RESPAWN_BASE_DELAY_MS
                    &&& final(self).retry_at_ms is None
                    &&& c == StatusChange::Stopped
                },
                _ => *final(self) == *old(self) && c == StatusChange::Unchanged,
            },
    {
        match self.child {
            Some(child) => {
                let follows = match session {
                    Some(s) => s == child.session,
                    None => false,
                };
                if !follows {
                    self.child = None;
                    self.started_at_ms = None;
                    self.delay_ms = RESPAWN_BASE_DELAY_MS;
                    self.retry_at_ms = None;
                    StatusChange::Stopped
                } else {
                    StatusChange::Unchanged
                }
            },
            None => StatusChange::Unchanged,
        }
    }

    /// React to polling the held child's exit status at `now_ms`.
    ///
    /// Only a helper that lasted [`HEALTHY_AFTER_MS`] resets the backoff; one
    /// that died sooner doubles it, so a helper that dies on startup cannot
    /// keep the delay at its base. Either way the next start waits out the
    /// delay.
    pub fn observe_exit(&mut self, check: ExitCheck, now_ms: u64) -> (c: StatusChange)
        requires
            old(self).wf(),
            old(self).child is Some,
        ensures
            final(self).wf(),
            match check {
                ExitCheck::Running => *final(self) == *old(self) && c == StatusChange::Unchanged,
                ExitCheck::Exited(_) => {
                    let lasted = if now_ms >= old(self).started_at_ms.unwrap() { now_ms - old(self).started_at_ms.unwrap() } else { 0 };
                    let delay = if lasted >= HEALTHY_AFTER_MS { RESPAWN_BASE_DELAY_MS } else { backed_off(old(self).delay_ms) };
                    &&& final(self).child is None
                    &&& final(self).started_at_ms is None
                    &&& final(self).delay_ms == delay
                    &&& final(self).retry_at_ms == Some(sat_add(now_ms, delay))
                    &&& c == StatusChange::Stopped
                },
                ExitCheck::Failed => {
                    &&& final(self).child is None
                    &&& final(self).started_at_ms is None
                    &&& final(self).delay_ms == old(self).delay_ms
                    &&& final(self).retry_at_ms == Some(sat_add(now_ms, old(self).delay_ms))
                    &&& c == StatusChange::Stopped
                },
            },
    {
        match check {
            ExitCheck::Running => StatusChange::Unchanged,
            ExitCheck::Exited(_) => {
                let started = match self.started_at_ms { Some(t) => t, None => now_ms };
                let lasted: u64 = if now_ms >= started { now_ms - started } else { 0 };
                self.delay_ms = if lasted >= HEALTHY_AFTER_MS {
                    RESPAWN_BASE_DELAY_MS
                } else {
                    next_respawn_delay(self.delay_ms)
                };
                self.child = None;
                self.started_at_ms = None;
                self.retry_at_ms = Some(now_ms.saturating_add(self.delay_ms));
                StatusChange::Stopped
            },
            ExitCheck::Failed => {
                self.child = None;
                self.started_at_ms = None;
                self.retry_at_ms = Some(now_ms.saturating_add(self.delay_ms));
                StatusChange::Stopped
            },
        }
    }

    /// Whether to launch a helper now: there is none, a user is at the console,
    /// and any backoff has run out.
    pub fn should_spawn(&self, session: Option<u32>, now_ms: u64) -> (b: bool)
        ensures
            b == (self.child is None && session is Some && match self.retry_at_ms {
                Some(at) => now_ms >= at,
                None => true,
            }),
    {
        if self.child.is_some() || session.is_none() {
            return false;
        }
        match self.retry_at_ms {
            Some(at) => now_ms >= at,
            None => true,
        }
    }

    /// React to the outcome of a launch attempted at `now_ms`: a new child, or
    /// a failure, which backs off (expected at the sign-in screen and during a
    /// switch, and bounded so it cannot fill the log).
    pub fn observe_spawn(&mut self, outcome: Option<Child>, now_ms: u64) -> (c: StatusChange)
        requires
            old(self).wf(),
        ensures
            final(self).wf(),
            match outcome {
                Some(child) => {
                    &&& final(self).child == Some(child)
                    &&& final(self).started_at_ms == Some(now_ms)
                    &&& final(self).retry_at_ms is None
                    &&& final(self).delay_ms == old(self).delay_ms
                    &&& c == StatusChange::Started { session: child.session }
                },
                None => {
                    &&& final(self).child == old(self).child
                    &&& final(self).started_at_ms == old(self).started_at_ms
                    &&& final(self).delay_ms == backed_off(old(self).delay_ms)
                    &&& final(self).retry_at_ms == Some(sat_add(now_ms, backed_off(old(self).delay_ms)))
                    &&& c == StatusChange::Unchanged
                },
            },
    {
        match outcome {
            Some(child) => {
                self.child = Some(child);
                self.started_at_ms = Some(now_ms);
                self.retry_at_ms = None;
                StatusChange::Started { session: child.session }
            },
            None => {
                self.delay_ms = next_respawn_delay(self.delay_ms);
                self.retry_at_ms = Some(now_ms.saturating_add(self.delay_ms));
                StatusChange::Unchanged
            },
        }
    }
}

} // verus!
