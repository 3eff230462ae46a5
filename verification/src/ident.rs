//! Identifier model: nominal string types for the three kinds of token that
//! `usbip` prints for a device.

use vstd::prelude::*;
use vstd::std_specs::cmp::PartialEqSpecImpl;

verus! {

/// A token that stands for a device in a listing. Its view is the text that
/// `usbip` printed, character for character, so that a token can be handed
/// back to `usbip` verbatim. Nothing is checked about the text.
pub trait Token: View<V = Seq<char>> + Sized {
    /// Wraps `text` without looking at it.
    fn from_text(text: String) -> (token: Self)
        ensures
            token@ == text@,
    ;

    /// The canonical rendering: the token as `usbip` wrote it.
    fn as_str(&self) -> (s: &str)
        ensures
            s@ == self@,
    ;

    /// Whether two tokens have the same text.
    fn same_text(&self, other: &Self) -> (same: bool)
        ensures
            same == (self@ == other@),
    ;
}

/// Vendor and product identifier of a device, such as `058f:9540`. Several
/// devices of the same make share one.
#[derive(Debug, Clone, Hash)]
pub struct UsbId(pub String);

/// Where a device sits on the bus of the hosting machine, such as `1-11`.
/// It may change when the device is plugged in again.
#[derive(Debug, Clone, Hash)]
pub struct BusId(pub String);

/// The local virtual port that a remote device is attached to, such as `00`.
/// It has nothing to do with a TCP port.
#[derive(Debug, Clone, Hash)]
pub struct Port(pub String);

impl View for UsbId {
    type V = Seq<char>;

    open spec fn view(&self) -> Seq<char> {
        self.0@
    }
}

impl View for BusId {
    type V = Seq<char>;

    open spec fn view(&self) -> Seq<char> {
        self.0@
    }
}

impl View for Port {
    type V = Seq<char>;

    open spec fn view(&self) -> Seq<char> {
        self.0@
    }
}

impl Token for UsbId {
    fn from_text(text: String) -> (token: Self) {
        UsbId(text)
    }

    fn as_str(&self) -> (s: &str) {
        self.0.as_str()
    }

    fn same_text(&self, other: &Self) -> (same: bool) {
        self.0 == other.0
    }
}

impl Token for BusId {
    fn from_text(text: String) -> (token: Self) {
        BusId(text)
    }

    fn as_str(&self) -> (s: &str) {
        self.0.as_str()
    }

    fn same_text(&self, other: &Self) -> (same: bool) {
        self.0 == other.0
    }
}

impl Token for Port {
    fn from_text(text: String) -> (token: Self) {
        Port(text)
    }

    fn as_str(&self) -> (s: &str) {
        self.0.as_str()
    }

    fn same_text(&self, other: &Self) -> (same: bool) {
        self.0 == other.0
    }
}

impl PartialEq for UsbId {
    fn eq(&self, other: &Self) -> (equal: bool) {
        self.0 == other.0
    }
}

impl PartialEqSpecImpl for UsbId {
    open spec fn obeys_eq_spec() -> bool {
        true
    }

    open spec fn eq_spec(&self, other: &Self) -> bool {
        self.0@ == other.0@
    }
}

impl Eq for UsbId {}

impl PartialEq for BusId {
    fn eq(&self, other: &Self) -> (equal: bool) {
        self.0 == other.0
    }
}

impl PartialEqSpecImpl for BusId {
    open spec fn obeys_eq_spec() -> bool {
        true
    }

    open spec fn eq_spec(&self, other: &Self) -> bool {
        self.0@ == other.0@
    }
}

impl Eq for BusId {}

impl PartialEq for Port {
    fn eq(&self, other: &Self) -> (equal: bool) {
        self.0 == other.0
    }
}

impl PartialEqSpecImpl for Port {
    open spec fn obeys_eq_spec() -> bool {
        true
    }

    open spec fn eq_spec(&self, other: &Self) -> bool {
        self.0@ == other.0@
    }
}

impl Eq for Port {}

/// The texts of a run of tokens, in order.
pub open spec fn texts<T: Token>(tokens: Seq<T>) -> Seq<Seq<char>> {
    tokens.map_values(|t: T| t@)
}

} // verus!
