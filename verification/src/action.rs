//! The action executor's judgement: what the text that `usbip` wrote to its
//! standard error says about a bind, unbind, attach or detach.
//!
//! `usbip`'s exit status is not looked at; only its diagnostic text counts.

use vstd::prelude::*;
use crate::text::{contains, contains_text, occurs_at};

verus! {

/// What `usbip` writes in front of an error message.
pub const ERROR_MARKER: &'static str = "error: ";

/// The message of a bind that found the device bound already.
pub const ALREADY_BOUND: &'static str = "already bound to usbip-host";

/// The message of an unbind that found the device not bound.
pub const NOT_BOUND: &'static str = "device is not bound to usbip-host";

/// The message of an attach that could not open the `vhci-hcd` driver: the
/// kernel module is not loaded.
pub const DRIVER_MISSING: &'static str = "open vhci_driver";

/// The four actions on a device.
#[derive(Debug, Clone, Copy, PartialEq, Eq, Structural)]
pub enum ActionKind {
    /// Offer a local device, by its bus identifier.
    Bind,
    /// Withdraw a local device, by its bus identifier.
    Unbind,
    /// Attach a remote device, by its bus identifier on the host.
    Attach,
    /// Detach an attached device, by its local port.
    Detach,
}

/// What the diagnostic text of one action amounts to.
#[derive(Debug, Clone, Copy, PartialEq, Eq, Structural)]
pub enum Verdict {
    /// The device is in the state that was asked for, whether the action
    /// brought it there or found it there.
    Success,
    /// The text is information for the user and is to be shown as it is.
    Report,
    /// The text holds an error that is none of the known harmless ones.
    Failure,
    /// The `vhci-hcd` kernel module is missing. No retry helps; the machine
    /// needs to be set up.
    DriverMissing,
}

impl Verdict {
    /// Whether the verdict is one of the two failures.
    pub open spec fn spec_is_failure(self) -> bool {
        self == Verdict::Failure || self == Verdict::DriverMissing
    }

    /// Whether the verdict is one of the two failures.
    #[verifier::when_used_as_spec(spec_is_failure)]
    pub fn is_failure(self) -> (failed: bool)
        ensures
            failed == self.spec_is_failure(),
    {
        match self {
            Verdict::Failure => true,
            Verdict::DriverMissing => true,
            _ => false,
        }
    }
}

/// Whether `diagnostic` holds an error other than the one that `benign`
/// stands for.
pub open spec fn real_error(diagnostic: Seq<char>, benign: Seq<char>) -> bool {
    contains_text(diagnostic, ERROR_MARKER@) && !contains_text(diagnostic, benign)
}

/// The verdict on the diagnostic text of one action.
///
/// A bind succeeds unless the text holds an error other than "already
/// bound"; an unbind unless it holds one other than "not bound". An attach
/// fails, for want of the driver, exactly if the text says so, whatever else
/// it holds. The text of a detach is always a report.
pub open spec fn verdict_of(kind: ActionKind, diagnostic: Seq<char>) -> Verdict {
    match kind {
        ActionKind::Bind => if real_error(diagnostic, ALREADY_BOUND@) {
            Verdict::Failure
        } else {
            Verdict::Success
        },
        ActionKind::Unbind => if real_error(diagnostic, NOT_BOUND@) {
            Verdict::Failure
        } else {
            Verdict::Success
        },
        ActionKind::Attach => if contains_text(diagnostic, DRIVER_MISSING@) {
            Verdict::DriverMissing
        } else {
            Verdict::Success
        },
        ActionKind::Detach => Verdict::Report,
    }
}

impl ActionKind {
    /// Judges the text that `usbip` wrote to its standard error when the
    /// action was applied to one handle.
    pub fn classify(self, diagnostic: &str) -> (verdict: Verdict)
        ensures
            verdict == verdict_of(self, diagnostic@),
    {
        match self {
            ActionKind::Bind => {
                if contains(diagnostic, ERROR_MARKER) && !contains(diagnostic, ALREADY_BOUND) {
                    Verdict::Failure
                } else {
                    Verdict::Success
                }
            },
            ActionKind::Unbind => {
                if contains(diagnostic, ERROR_MARKER) && !contains(diagnostic, NOT_BOUND) {
                    Verdict::Failure
                } else {
                    Verdict::Success
                }
            },
            ActionKind::Attach => {
                if contains(diagnostic, DRIVER_MISSING) {
                    Verdict::DriverMissing
                } else {
                    Verdict::Success
                }
            },
            ActionKind::Detach => Verdict::Report,
        }
    }
}

/// Whether to bind or to unbind a local device.
#[derive(Debug, Clone, Copy, PartialEq, Eq, Structural)]
pub enum BindType {
    Bind,
    Unbind,
}

impl BindType {
    /// The action that the bind type stands for.
    pub open spec fn spec_kind(self) -> ActionKind {
        match self {
            BindType::Bind => ActionKind::Bind,
            BindType::Unbind => ActionKind::Unbind,
        }
    }

    /// The action that the bind type stands for.
    #[verifier::when_used_as_spec(spec_kind)]
    pub fn kind(self) -> (kind: ActionKind)
        ensures
            kind == self.spec_kind(),
    {
        match self {
            BindType::Bind => ActionKind::Bind,
            BindType::Unbind => ActionKind::Unbind,
        }
    }

    /// The word for the bind type on `usbip`'s command line.
    pub fn command(self) -> (word: &'static str)
        ensures
            word@ == (match self {
                BindType::Bind => "bind"@,
                BindType::Unbind => "unbind"@,
            }),
    {
        match self {
            BindType::Bind => "bind",
            BindType::Unbind => "unbind",
        }
    }
}

/// A marker that stands between any two texts occurs in the whole.
pub proof fn lemma_embedded_marker(before: Seq<char>, marker: Seq<char>, after: Seq<char>)
    ensures
        contains_text(before + marker + after, marker),
{
    let whole = before + marker + after;
    let at = before.len() as int;
    assert(whole.subrange(at, at + marker.len()) =~= marker);
    assert(occurs_at(whole, marker, at));
}

/// A bind whose diagnostic says that the device is bound already succeeds,
/// and so does an unbind whose diagnostic says that the device is not
/// bound: to ask twice does no harm. This holds whatever else the text
/// says.
pub proof fn lemma_benign_message_is_success(diagnostic: Seq<char>)
    ensures
        contains_text(diagnostic, ALREADY_BOUND@) ==> verdict_of(ActionKind::Bind, diagnostic)
            == Verdict::Success,
        contains_text(diagnostic, NOT_BOUND@) ==> verdict_of(ActionKind::Unbind, diagnostic)
            == Verdict::Success,
{
}

/// A bind or unbind whose diagnostic holds no error marker succeeds.
pub proof fn lemma_no_error_is_success(diagnostic: Seq<char>)
    requires
        !contains_text(diagnostic, ERROR_MARKER@),
    ensures
        verdict_of(ActionKind::Bind, diagnostic) == Verdict::Success,
        verdict_of(ActionKind::Unbind, diagnostic) == Verdict::Success,
{
}

/// An attach whose diagnostic holds the message of the missing driver is
/// judged `DriverMissing`, whatever stands before and after the message.
pub proof fn lemma_driver_missing_wins(before: Seq<char>, after: Seq<char>)
    ensures
        verdict_of(ActionKind::Attach, before + DRIVER_MISSING@ + after) == Verdict::DriverMissing,
{
    lemma_embedded_marker(before, DRIVER_MISSING@, after);
}

/// Only an attach is ever judged `DriverMissing`, and a detach never fails.
pub proof fn lemma_verdicts_by_kind(kind: ActionKind, diagnostic: Seq<char>)
    ensures
        verdict_of(kind, diagnostic) == Verdict::DriverMissing ==> kind == ActionKind::Attach,
        verdict_of(kind, diagnostic) == Verdict::Failure ==> kind == ActionKind::Bind || kind
            == ActionKind::Unbind,
        verdict_of(kind, diagnostic) == Verdict::Report <==> kind == ActionKind::Detach,
{
}

} // verus!
