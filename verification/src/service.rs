//! Windows service registration and lifecycle, as far as it is decided here.
//!
//! The agent is one binary in two modes: `run` is the console mode, and the
//! Service Control Manager starts the same executable with the hidden
//! `service` subcommand. Registration itself needs a Service Control Manager;
//! where there is none, each operation refuses with a message that says why
//! rather than pretending to have done something.

use vstd::prelude::*;
use std::path::PathBuf;
use crate::text::{decimal, decimal_string};

verus! {

/// Registry key and SCM name.
pub const SERVICE_NAME: &'static str = "Osprey";
/// What an operator sees in services.msc.
pub const SERVICE_DISPLAY_NAME: &'static str = "Osprey Agent";
/// The service's description.
pub const SERVICE_DESCRIPTION: &'static str = "Remote access agent. Serves paired controllers over the local network and, when configured, through the Osprey relay.";

/// What `install` was asked to register.
#[derive(Debug, Clone)]
pub struct InstallOptions {
    /// Port baked into the registered command line.
    pub port: u16,
    pub advertise_mdns: bool,
    /// Create the inbound firewall rule for `port` on the Private profile.
    pub firewall_rule: bool,
    /// Start the service once it is registered.
    pub start: bool,
}

/// What `uninstall` was asked to remove.
#[derive(Debug, Clone)]
pub struct UninstallOptions {
    pub remove_firewall_rule: bool,
}

/// How the service runs once the SCM hands control over.
#[derive(Debug)]
pub struct ServiceOptions {
    pub port: u16,
    pub advertise_mdns: bool,
    /// Overrides the platform data directory; only tests and `--data-dir`
    /// set it.
    pub data_dir: Option<PathBuf>,
}

/// Whether the process was started by the Service Control Manager.
#[derive(Debug, Clone, Copy, PartialEq, Eq)]
pub enum Dispatched {
    /// The dispatcher ran the service to completion and returned.
    AsService,
    /// Not running under the SCM: the caller falls back to console mode
    /// instead of failing.
    NotUnderScm,
}

/// Why a service operation was refused.
#[derive(Debug, Clone, PartialEq, Eq)]
pub struct ServiceError {
    pub message: String,
}

/// `install` where there is no Service Control Manager: refused.
pub fn install(options: &InstallOptions) -> (r: Result<(), ServiceError>)
    ensures
        r matches Err(e) && e.message@ == "`install` registers a Windows service and only works on Windows"@,
{
    Err(ServiceError { message: String::from_str("`install` registers a Windows service and only works on Windows") })
}

/// `uninstall` where there is no Service Control Manager: refused.
pub fn uninstall(options: &UninstallOptions) -> (r: Result<(), ServiceError>)
    ensures
        r matches Err(e) && e.message@ == "`uninstall` removes a Windows service and only works on Windows"@,
{
    Err(ServiceError { message: String::from_str("`uninstall` removes a Windows service and only works on Windows") })
}

/// The service entry point where there is no Service Control Manager: not an
/// error, because there is nothing to be started by, which is what
/// [`Dispatched::NotUnderScm`] means. `service` then behaves like `run`.
pub fn dispatch(options: &ServiceOptions) -> (r: Result<Dispatched, ServiceError>)
    ensures
        r == Ok::<Dispatched, ServiceError>(Dispatched::NotUnderScm),
{
    Ok(Dispatched::NotUnderScm)
}

/// Hardening the data directory's ACL where there is no Windows ACL to set:
/// refused, since it is a Windows access-control boundary.
pub fn harden_data_dir(dir: &PathBuf) -> (r: Result<(), ServiceError>)
    ensures
        r matches Err(e) && e.message@ == "the data directory ACL is a Windows access-control boundary and can only be set there"@,
{
    Err(ServiceError { message: String::from_str("the data directory ACL is a Windows access-control boundary and can only be set there") })
}

/// Restart delays, in seconds, for the first, second, and third-and-later
/// failures.
pub const RESTART_DELAYS_SECS: [u64; 3] = [1, 5, 30];
/// A day without a failure clears the failure count, so an agent that dies
/// once a week keeps getting the fast first retry.
pub const FAILURE_RESET_PERIOD_SECS: u64 = 86_400;
/// How long the SCM waits on a pending transition before deciding the
/// service is wedged.
pub const PENDING_WAIT_HINT_SECS: u64 = 20;

/// The arguments the registered service is launched with: the hidden
/// `service` subcommand, the port, and `--no-mdns` when discovery is off.
pub open spec fn launch_arguments_of(port: u16, advertise_mdns: bool) -> Seq<Seq<char>> {
    let base = seq!["service"@, "--port"@, decimal(port as nat)];
    if advertise_mdns { base } else { base.push("--no-mdns"@) }
}

/// The launch arguments baked into the registered command line.
pub fn launch_arguments(options: &InstallOptions) -> (args: Vec<String>)
    ensures
        args@.map_values(|a: String| a@) == launch_arguments_of(options.port, options.advertise_mdns),
{
    let mut args: Vec<String> = Vec::new();
    args.push(String::from_str("service"));
    args.push(String::from_str("--port"));
    args.push(decimal_string(options.port as u64));
    if !options.advertise_mdns {
        args.push(String::from_str("--no-mdns"));
    }
    assert(args@.map_values(|a: String| a@) =~= launch_arguments_of(options.port, options.advertise_mdns));
    args
}

/// The service states this agent reports.
#[derive(Debug, Clone, Copy, PartialEq, Eq)]
pub enum ServiceState {
    StartPending,
    Running,
    StopPending,
    Stopped,
}

/// What a status report carries besides the state.
#[derive(Debug, Clone, Copy, PartialEq, Eq)]
pub struct StatusReport {
    /// Whether the SCM may send `Stop`. Only a running service accepts it:
    /// the service-control trampoline frees its handler on a terminating
    /// control, so accepting one while already stopping would free it twice.
    pub accepts_stop: bool,
    /// Seconds the SCM should wait for the next checkpoint: none when the
    /// checkpoint is zero.
    pub wait_hint_secs: u64,
}

/// The report for `state` at `checkpoint`.
pub fn status_report(state: ServiceState, checkpoint: u32) -> (r: StatusReport)
    ensures
        r.accepts_stop == (state == ServiceState::Running),
        r.wait_hint_secs == if checkpoint == 0 { 0 } else { PENDING_WAIT_HINT_SECS },
{
    StatusReport {
        accepts_stop: match state { ServiceState::Running => true, _ => false },
        wait_hint_secs: if checkpoint == 0 { 0 } else { PENDING_WAIT_HINT_SECS },
    }
}

/// The service-specific exit code for a run that ended well or not: a
/// non-zero code is what makes the SCM run the recovery actions.
pub fn exit_code(ended_well: bool) -> (code: u32)
    ensures
        code == if ended_well { 0u32 } else { 1u32 },
{
    if ended_well { 0 } else { 1 }
}

} // verus!
