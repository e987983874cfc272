//! Starting a server, and why that fails.
use vstd::prelude::*;

use crate::text::{decimal, unsigned_text};

verus! {

/// Messages that a bounded channel of the server holds.
pub const CHANNEL_CAPACITY: usize = 128;

/// The kind of I/O error that a failure is reported as.
#[derive(Clone, Copy, PartialEq, Eq, Structural, Debug)]
pub enum FailureKind {
    InvalidInput,
    InvalidData,
    AddrInUse,
    Other,
}

/// Why a server did not start or stopped, with the reason.
pub enum StartupError {
    /// The overrides of the configuration are not well formed.
    Overrides(String),
    /// The configuration could not be loaded.
    Config(String),
    /// The address to bind is not well formed.
    BindAddress(String),
    /// The address could not be bound.
    Bind { address: String, reason: String },
    /// The server stopped.
    Serve(String),
}

/// The message that describes a failure.
pub open spec fn startup_text(error: StartupError) -> Seq<char> {
    match error {
        StartupError::Overrides(reason) => "error parsing -c overrides: "@ + reason@,
        StartupError::Config(reason) => "error loading config: "@ + reason@,
        StartupError::BindAddress(reason) => "invalid bind address: "@ + reason@,
        StartupError::Bind { address, reason } => "failed to bind "@ + address@ + ": "@ + reason@,
        StartupError::Serve(reason) => "server error: "@ + reason@,
    }
}

/// The kind of I/O error that a failure is reported as.
pub open spec fn startup_kind(error: StartupError) -> FailureKind {
    match error {
        StartupError::Overrides(_) => FailureKind::InvalidInput,
        StartupError::Config(_) => FailureKind::InvalidData,
        StartupError::BindAddress(_) => FailureKind::InvalidInput,
        StartupError::Bind { .. } => FailureKind::AddrInUse,
        StartupError::Serve(_) => FailureKind::Other,
    }
}

impl StartupError {
    /// The message that describes the failure.
    pub fn message(&self) -> (r: String)
        ensures
            r@ == startup_text(*self),
    {
        match self {
            StartupError::Overrides(reason) => {
                "error parsing -c overrides: ".to_owned().concat(reason.as_str())
            },
            StartupError::Config(reason) => {
                "error loading config: ".to_owned().concat(reason.as_str())
            },
            StartupError::BindAddress(reason) => {
                "invalid bind address: ".to_owned().concat(reason.as_str())
            },
            StartupError::Bind { address, reason } => {
                "failed to bind ".to_owned().concat(address.as_str()).concat(": ").concat(
                    reason.as_str(),
                )
            },
            StartupError::Serve(reason) => "server error: ".to_owned().concat(reason.as_str()),
        }
    }

    /// The kind of I/O error that the failure is reported as.
    pub fn kind(&self) -> (r: FailureKind)
        ensures
            r == startup_kind(*self),
    {
        match self {
            StartupError::Overrides(_) => FailureKind::InvalidInput,
            StartupError::Config(_) => FailureKind::InvalidData,
            StartupError::BindAddress(_) => FailureKind::InvalidInput,
            StartupError::Bind { .. } => FailureKind::AddrInUse,
            StartupError::Serve(_) => FailureKind::Other,
        }
    }
}

/// The address of `port` on `host`.
pub fn bind_address(host: &str, port: u16) -> (r: String)
    ensures
        r@ == host@ + ":"@ + decimal(port as int),
{
    host.to_owned().concat(":").concat(unsigned_text(port as u64).as_str())
}

/// The path of the log file: below the home of the program where one is given, else below its
/// default place in the home of the user.
pub fn log_path(program_home: Option<String>, user_home: &str) -> (r: String)
    ensures
        r@ == (match program_home {
            Some(home) => home@,
            None => user_home@ + "/.codex"@,
        }) + "/log/codex-rmcp.log"@,
{
    let home: String = match program_home {
        Some(home) => home,
        None => user_home.to_owned().concat("/.codex"),
    };
    home.concat("/log/codex-rmcp.log")
}

/// What each failure at startup says, with its reason in full, and what kind of error it is.
pub proof fn law_startup_failures(reason: String, address: String)
    ensures
        startup_text(StartupError::Overrides(reason)) == "error parsing -c overrides: "@ + reason@,
        startup_kind(StartupError::Overrides(reason)) is InvalidInput,
        startup_text(StartupError::Config(reason)) == "error loading config: "@ + reason@,
        startup_kind(StartupError::Config(reason)) is InvalidData,
        startup_text(StartupError::BindAddress(reason)) == "invalid bind address: "@ + reason@,
        startup_kind(StartupError::BindAddress(reason)) is InvalidInput,
        startup_text((StartupError::Bind { address, reason })) == "failed to bind "@ + address@
            + ": "@ + reason@,
        startup_kind((StartupError::Bind { address, reason })) is AddrInUse,
        startup_text(StartupError::Serve(reason)) == "server error: "@ + reason@,
        startup_kind(StartupError::Serve(reason)) is Other,
        CHANNEL_CAPACITY == 128,
{
}

} // verus!
