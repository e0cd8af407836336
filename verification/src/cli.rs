//! The command line: what it asks for, and the defaults it falls back to.
use crate::text::{has_prefix, starts_with};
use vstd::prelude::*;

verus! {

/// The configuration file read when none is named.
pub const DEFAULT_CONF_FILE: &'static str = "config.toml";

/// The log level used when neither the command line nor the configuration sets one.
pub const DEFAULT_LOG_LEVEL: &'static str = "Info";

/// How often, in seconds, the registration is polled when the command line does not say.
pub const DEFAULT_POLLING_INTERVAL: u64 = 6;

/// A subcommand.
#[derive(Clone, Debug)]
pub enum Command {
    /// Registers the exporter if needed, then serves the metrics.
    Auto { pooling_interval: Option<u64>, port: Option<u16> },
    /// Registers the exporter.
    Register { pooling_interval: Option<u64> },
    /// Serves the metrics.
    Serve { port: Option<u16> },
    /// Opens a session and reports on it.
    SessionDiagnostic { show_token: Option<bool> },
    /// Revokes the exporter's registration.
    Revoke,
}

/// The parsed command line.
#[derive(Clone, Debug)]
pub struct Cli {
    pub command: Command,
    pub configuration_file: Option<String>,
    /// The log level asked for, as written.
    pub verbosity: Option<String>,
}

/// What the exporter is to do, with every default applied.
#[derive(Clone, Debug, PartialEq, Eq, Structural)]
pub enum Action {
    AutoRegisterAndServe { interval: u64, port: u16 },
    Register { interval: u64 },
    Serve { port: u16 },
    SessionDiagnostic { show_token: bool },
    Revoke,
}

/// The configuration file to read: the one named, else `config.toml`.
pub fn configuration_path(cli: &Cli) -> (p: String)
    ensures
        p@ == (match cli.configuration_file { Some(f) => f@, None => DEFAULT_CONF_FILE@ }),
{
    match &cli.configuration_file {
        Some(f) => f.clone(),
        None => String::from_str(DEFAULT_CONF_FILE),
    }
}

/// The log level: the command line's, else the configuration's, else `Info`.
pub fn log_level(verbosity: &Option<String>, configured: &Option<String>) -> (l: String)
    ensures
        l@ == (match verbosity {
            Some(v) => v@,
            None => match configured { Some(c) => c@, None => DEFAULT_LOG_LEVEL@ },
        }),
{
    match verbosity {
        Some(v) => v.clone(),
        None => match configured {
            Some(c) => c.clone(),
            None => String::from_str(DEFAULT_LOG_LEVEL),
        },
    }
}

/// The command leaves the port to the configuration.
pub open spec fn needs_configured_port(command: Command) -> bool {
    match command {
        Command::Auto { pooling_interval: _, port } => port is None,
        Command::Serve { port } => port is None,
        _ => false,
    }
}

/// Whether the command leaves the port to the configuration.
pub fn needs_port(command: &Command) -> (b: bool)
    ensures
        b == needs_configured_port(*command),
{
    match command {
        Command::Auto { pooling_interval: _, port } => port.is_none(),
        Command::Serve { port } => port.is_none(),
        _ => false,
    }
}

/// An interval given, or 6 seconds.
pub open spec fn interval_or_default(i: Option<u64>) -> u64 {
    match i {
        Some(v) => v,
        None => DEFAULT_POLLING_INTERVAL,
    }
}

/// A port given, or the configured one.
pub open spec fn port_or_configured(p: Option<u16>, configured: Option<u16>) -> u16 {
    match p {
        Some(v) => v,
        None => configured.unwrap(),
    }
}

/// The action a command asks for.
pub open spec fn planned_action(command: Command, configured_port: Option<u16>) -> Action {
    match command {
        Command::Auto { pooling_interval, port } => Action::AutoRegisterAndServe {
            interval: interval_or_default(pooling_interval),
            port: port_or_configured(port, configured_port),
        },
        Command::Register { pooling_interval } => Action::Register { interval: interval_or_default(pooling_interval) },
        Command::Serve { port } => Action::Serve { port: port_or_configured(port, configured_port) },
        Command::SessionDiagnostic { show_token } => Action::SessionDiagnostic { show_token: show_token == Some(true) },
        Command::Revoke => Action::Revoke,
    }
}

/// The action a command asks for; a missing interval is 6 seconds, a missing port the
/// configured one.
pub fn plan_command(command: &Command, configured_port: Option<u16>) -> (a: Action)
    requires
        needs_configured_port(*command) ==> configured_port is Some,
    ensures
        a == planned_action(*command, configured_port),
{
    match command {
        Command::Auto { pooling_interval, port } => Action::AutoRegisterAndServe {
            interval: match pooling_interval { Some(i) => *i, None => DEFAULT_POLLING_INTERVAL },
            port: match port { Some(p) => *p, None => configured_port.unwrap() },
        },
        Command::Register { pooling_interval } => Action::Register {
            interval: match pooling_interval { Some(i) => *i, None => DEFAULT_POLLING_INTERVAL },
        },
        Command::Serve { port } => Action::Serve {
            port: match port { Some(p) => *p, None => configured_port.unwrap() },
        },
        Command::SessionDiagnostic { show_token } => Action::SessionDiagnostic {
            show_token: match show_token { Some(b) => *b, None => false },
        },
        Command::Revoke => Action::Revoke,
    }
}

/// Keeps log lines of the HTTP client and of the metrics server out, but at debug level.
#[derive(Clone, Copy, Debug)]
pub struct CustomLogFilter;

/// A log line from `source` (empty when unknown) at that level is written.
pub open spec fn keeps_line(is_debug: bool, source: Seq<char>) -> bool {
    is_debug || !(has_prefix(source, "reqwest"@) || has_prefix(source, "prometheus_exporter"@))
}

impl CustomLogFilter {
    /// Whether a line at debug level or not, from `source`, is written.
    pub fn keeps(&self, is_debug: bool, source: &str) -> (b: bool)
        ensures
            b == keeps_line(is_debug, source@),
    {
        is_debug || !(starts_with(source, "reqwest") || starts_with(source, "prometheus_exporter"))
    }
}

}
