//! The ways in which a command can fail, and what the user is told.

use vstd::prelude::*;
use crate::action::Verdict;
use crate::batch::Failure;
use crate::parser::ConfigurationError;
use crate::text::{contains, contains_text, decimal_text, push_decimal};

verus! {

/// What a shell writes when it cannot find a command.
pub const COMMAND_NOT_FOUND: &'static str = "command not found";

/// A failure of a command, as it is surfaced to the user.
#[derive(Debug, Clone)]
pub enum EngineError {
    /// A scanning pattern is faulty. This is a fault of the program.
    Configuration(ConfigurationError),
    /// The `usbip` program cannot be found.
    ExternalToolMissing,
    /// `usbip` ran but could not produce its listing: most likely no daemon
    /// answers on the TCP port, where one was given.
    ExternalToolUnreachable { tcp_port: Option<u32>, diagnostic: String },
    /// No listed device matches the filter. `ports` says whether ports or
    /// bus identifiers were looked for.
    NoMatch { ports: bool },
    /// An action wrote an error that is none of the known harmless ones.
    ActionFailure { diagnostic: String },
    /// An attach found the `vhci-hcd` kernel module missing.
    DriverMissing,
}

impl EngineError {
    /// The text of the message that tells the user of the failure.
    pub open spec fn message_text(self) -> Seq<char> {
        match self {
            EngineError::Configuration(ConfigurationError::InvalidPattern) =>
                "Provided invalid regular expression!"@,
            EngineError::Configuration(ConfigurationError::WrongGroups) =>
                "Provided invalid regular expression!\nMust have capture groups that contain `usbid` and `busid`!"@,
            EngineError::ExternalToolMissing =>
                "Cannot find the command `usbip`.\n  Please install the usbip package or add it to your PATH"@,
            EngineError::ExternalToolUnreachable { tcp_port: Some(port), diagnostic } =>
                "Is the usbip daemon/server running and is it runnig via port "@ + decimal_text(
                    port as nat,
                ) + "?"@,
            EngineError::ExternalToolUnreachable { tcp_port: None, diagnostic } => diagnostic@,
            EngineError::NoMatch { ports: false } => "Found no matching USB IDs!"@,
            EngineError::NoMatch { ports: true } => "Found no matching ports!"@,
            EngineError::ActionFailure { diagnostic } => "Unknown error message: "@ + diagnostic@,
            EngineError::DriverMissing => "Please enable the `vhci-hcd` kernel module."@,
        }
    }

    /// The message that tells the user of the failure and, where there is
    /// one, of the remedy.
    pub fn message(&self) -> (message: String)
        ensures
            message@ == self.message_text(),
    {
        match self {
            EngineError::Configuration(ConfigurationError::InvalidPattern) => String::from_str(
                "Provided invalid regular expression!",
            ),
            EngineError::Configuration(ConfigurationError::WrongGroups) => String::from_str(
                "Provided invalid regular expression!\nMust have capture groups that contain `usbid` and `busid`!",
            ),
            EngineError::ExternalToolMissing => String::from_str(
                "Cannot find the command `usbip`.\n  Please install the usbip package or add it to your PATH",
            ),
            EngineError::ExternalToolUnreachable { tcp_port: Some(port), diagnostic: _ } => {
                let mut message = String::from_str(
                    "Is the usbip daemon/server running and is it runnig via port ",
                );
                push_decimal(&mut message, *port);
                message.append("?");
                message
            },
            EngineError::ExternalToolUnreachable { tcp_port: None, diagnostic } => {
                diagnostic.clone()
            },
            EngineError::NoMatch { ports: false } => String::from_str("Found no matching USB IDs!"),
            EngineError::NoMatch { ports: true } => String::from_str("Found no matching ports!"),
            EngineError::ActionFailure { diagnostic } => {
                let mut message = String::from_str("Unknown error message: ");
                message.append(diagnostic.as_str());
                message
            },
            EngineError::DriverMissing => String::from_str(
                "Please enable the `vhci-hcd` kernel module.",
            ),
        }
    }
}

/// Whether the diagnostic of a listing that failed says that `usbip` itself
/// could not be found.
pub open spec fn tool_missing(diagnostic: Seq<char>) -> bool {
    contains_text(diagnostic, COMMAND_NOT_FOUND@)
}

/// Why a listing failed, from what was written when it did: `usbip` is
/// missing where the text says that the command was not found; in every
/// other case `usbip` could not reach what it was to list. `tcp_port` is the
/// port that the listing was asked on, if it was asked on one.
pub fn classify_listing_failure(diagnostic: &str, tcp_port: Option<u32>) -> (error: EngineError)
    ensures
        tool_missing(diagnostic@) ==> error == EngineError::ExternalToolMissing,
        !tool_missing(diagnostic@) ==> (error matches EngineError::ExternalToolUnreachable {
            tcp_port: port,
            diagnostic: text,
        } && port == tcp_port && text@ == diagnostic@),
{
    if contains(diagnostic, COMMAND_NOT_FOUND) {
        EngineError::ExternalToolMissing
    } else {
        EngineError::ExternalToolUnreachable { tcp_port, diagnostic: diagnostic.to_owned() }
    }
}

/// Whether `error` is what a failure with this verdict and this diagnostic
/// is surfaced as: the missing driver as itself, anything else as an action
/// failure that carries the diagnostic.
pub open spec fn surfaces(error: EngineError, verdict: Verdict, diagnostic: Seq<char>) -> bool {
    if verdict == Verdict::DriverMissing {
        error == EngineError::DriverMissing
    } else {
        error matches EngineError::ActionFailure { diagnostic: text } && text@ == diagnostic
    }
}

/// The error that a failure of a batch is surfaced as.
pub fn failure_error(failure: &Failure) -> (error: EngineError)
    ensures
        surfaces(error, failure.verdict, failure.diagnostic@),
{
    match failure.verdict {
        Verdict::DriverMissing => EngineError::DriverMissing,
        _ => EngineError::ActionFailure { diagnostic: failure.diagnostic.clone() },
    }
}

} // verus!
