//! The agent's command-line surface, as values.
//!
//! The binary parses its arguments into these and dispatches on them; each
//! subcommand's flags become the options its implementation takes.

use vstd::prelude::*;
use std::path::PathBuf;
use std::time::Duration;
use crate::commands::{PairOptions, RunOptions};
use crate::service::{InstallOptions, ServiceOptions, UninstallOptions};
use crate::time::{duration_of_secs, secs};

verus! {

/// The parsed command line.
#[derive(Debug)]
pub struct Cli {
    /// Overrides the data directory. Ignored on Windows, where the ACL on
    /// `%ProgramData%\Osprey` is the only thing protecting the sealed keys.
    pub data_dir: Option<PathBuf>,
    pub command: Command,
}

/// The subcommands.
#[derive(Debug, Clone)]
pub enum Command {
    /// Display a pairing QR and enrol one controller.
    Pair {
        relay_url: Option<String>,
        enrollment_secret: Option<String>,
        lan_only: bool,
        port: u16,
        ttl: u64,
        no_mdns: bool,
        print_payload: bool,
    },
    /// Serve sessions to already-paired controllers.
    Run { port: u16, no_mdns: bool },
    /// Revoke a controller: `all`, a relay device uuid, or a fingerprint
    /// prefix.
    Unpair { target: String },
    /// Register the Windows service.
    Install { port: u16, no_mdns: bool, no_firewall_rule: bool, no_start: bool },
    /// Remove the Windows service, leaving the data directory alone: it holds
    /// the identity, the pins and the audit log.
    Uninstall { remove_firewall_rule: bool },
    /// Entry point the Service Control Manager invokes.
    Service { port: u16, no_mdns: bool },
}

impl Command {
    /// The pairing window for `--ttl <seconds>`.
    pub fn pairing_ttl(seconds: u64) -> (d: Duration)
        ensures
            d == duration_of_secs(seconds),
    {
        secs(seconds)
    }
}

/// `install`'s options from its flags: each `--no-*` flag turns its feature
/// off.
pub fn install_options(port: u16, no_mdns: bool, no_firewall_rule: bool, no_start: bool) -> (o: InstallOptions)
    ensures
        o.port == port,
        o.advertise_mdns == !no_mdns,
        o.firewall_rule == !no_firewall_rule,
        o.start == !no_start,
{
    InstallOptions { port, advertise_mdns: !no_mdns, firewall_rule: !no_firewall_rule, start: !no_start }
}

/// `uninstall`'s options from its flag.
pub fn uninstall_options(remove_firewall_rule: bool) -> (o: UninstallOptions)
    ensures
        o.remove_firewall_rule == remove_firewall_rule,
{
    UninstallOptions { remove_firewall_rule }
}

/// The service's options from its flags and the global `--data-dir`.
pub fn service_options(port: u16, no_mdns: bool, data_dir: Option<PathBuf>) -> (o: ServiceOptions)
    ensures
        o.port == port,
        o.advertise_mdns == !no_mdns,
        o.data_dir == data_dir,
{
    ServiceOptions { port, advertise_mdns: !no_mdns, data_dir }
}

/// `run`'s options from its flags. From the console a paired controller is
/// required; the service, which runs before anyone has paired, does not
/// require one.
pub fn run_options(port: u16, no_mdns: bool, from_console: bool) -> (o: RunOptions)
    ensures
        o == (RunOptions { port, advertise_mdns: !no_mdns, require_paired_controller: from_console }),
{
    RunOptions { port, advertise_mdns: !no_mdns, require_paired_controller: from_console }
}

/// `pair`'s options from its flags.
pub fn pair_options(relay_url: Option<String>, enrollment_secret: Option<String>, lan_only: bool, port: u16, ttl: u64)
    -> (o: PairOptions)
    ensures
        o.relay_url == relay_url,
        o.enrollment_secret == enrollment_secret,
        o.lan_only == lan_only,
        o.port == port,
        o.ttl_secs == ttl,
{
    PairOptions { relay_url, enrollment_secret, lan_only, port, ttl_secs: ttl }
}

/// The size past which the service log is rotated to one previous
/// generation at start-up.
pub const MAX_SERVICE_LOG_BYTES: u64 = 8388608;

/// Whether a service log of `len` bytes is rotated before logging resumes.
pub fn rotate_service_log(len: u64) -> (b: bool)
    ensures
        b == (len > MAX_SERVICE_LOG_BYTES),
{
    len > MAX_SERVICE_LOG_BYTES
}

} // verus!
