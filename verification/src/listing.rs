//! The three listings that `usbip` prints, each with the pattern that its
//! device lines are read with.

use vstd::prelude::*;
use crate::ident::{BusId, Port};
use crate::parser::{
    pattern_accepted,
    pattern_fault,
    scanned_registry,
    ConfigurationError,
    RegistryParser,
    BUS_ID_GROUP,
    PORT_GROUP,
};
use crate::registry::{drawn_from, Registry};

verus! {

/// Device lines of `usbip list --parsable --local`: fields of the form
/// `key=value`, each closed by `#`. The bus identifier and the identifier
/// are the shortest runs up to the next delimiter.
pub const PARSABLE_PATTERN: &'static str = r"busid=(?P<busid>.*?)#usbid=(?P<usbid>.*?)#";

/// Device lines of the listing that `usbip list --remote` prints for
/// people: a bus token of digits and hyphens, a colon, a description that
/// holds another colon, and the identifier in parentheses. The description is taken as
/// long as the line allows, so the identifier is the last parenthesised
/// pair of hexadecimal numbers on the line.
pub const HUMAN_PATTERN: &'static str =
    r"\s+(?P<busid>[0-9\-]+):.+?:.+\((?P<usbid>[0-9a-fA-F]+:[0-9a-fA-F]+)\)";

/// Records of `usbip port`: a line that starts a port with its number, and
/// on the very next line the identifier in parentheses.
pub const PORTS_PATTERN: &'static str =
    r"Port\s+(?P<port>\d+).*\n.*\((?P<usbid>[0-9a-fA-F]+:[0-9a-fA-F]+)\)";

/// The formats of listing that can be scanned.
#[derive(Debug, Clone, Copy, PartialEq, Eq, Structural)]
pub enum ListingFormat {
    /// `usbip list --parsable --local`.
    LocalParsable,
    /// The listing for people, as `usbip list --remote` prints it.
    Human,
    /// `usbip port`.
    AttachedPorts,
}

impl ListingFormat {
    /// The pattern of the format.
    pub open spec fn spec_pattern(self) -> Seq<char> {
        match self {
            ListingFormat::LocalParsable => PARSABLE_PATTERN@,
            ListingFormat::Human => HUMAN_PATTERN@,
            ListingFormat::AttachedPorts => PORTS_PATTERN@,
        }
    }

    /// The group that holds the handle in the pattern of the format.
    pub open spec fn spec_handle_group(self) -> Seq<char> {
        match self {
            ListingFormat::LocalParsable => BUS_ID_GROUP@,
            ListingFormat::Human => BUS_ID_GROUP@,
            ListingFormat::AttachedPorts => PORT_GROUP@,
        }
    }

    /// The pattern that the device lines of the format are read with.
    pub fn pattern(self) -> (pattern: &'static str)
        ensures
            pattern@ == self.spec_pattern(),
    {
        match self {
            ListingFormat::LocalParsable => PARSABLE_PATTERN,
            ListingFormat::Human => HUMAN_PATTERN,
            ListingFormat::AttachedPorts => PORTS_PATTERN,
        }
    }

    /// The name of the capture group that holds the handle: the bus
    /// identifier in the listings of bus locations, the port in the listing
    /// of attached devices.
    pub fn handle_group(self) -> (group: &'static str)
        ensures
            group@ == self.spec_handle_group(),
    {
        match self {
            ListingFormat::LocalParsable => BUS_ID_GROUP,
            ListingFormat::Human => BUS_ID_GROUP,
            ListingFormat::AttachedPorts => PORT_GROUP,
        }
    }

    /// The parser of the format, or what is wrong with its pattern.
    pub fn parser(self) -> (parser: Result<RegistryParser, ConfigurationError>)
        ensures
            parser is Ok == pattern_accepted(self.spec_pattern(), self.spec_handle_group()),
            parser matches Ok(p) ==> p.pattern() == self.spec_pattern() && p.handle_group()
                == self.spec_handle_group(),
            parser matches Err(fault) ==> fault == pattern_fault(self.spec_pattern()),
    {
        RegistryParser::new(self.pattern(), self.handle_group())
    }
}

/// What `usbip list --parsable --local` printed: the devices that can be
/// hosted, one line each.
#[derive(Debug)]
pub struct ListHostableParsable(pub String);

/// What `usbip list --remote` printed: the devices that a host offers.
#[derive(Debug)]
pub struct ListMountable(pub String);

/// What `usbip port` printed: the remote devices that are attached here and
/// can be detached.
#[derive(Debug)]
pub struct ListUnmountable(pub String);

impl ListHostableParsable {
    /// The bus identifiers of the listed devices, by vendor/product
    /// identifier.
    pub fn build_usbid_map(&self) -> (registry: Result<Registry<BusId>, ConfigurationError>)
        ensures
            registry is Ok == pattern_accepted(PARSABLE_PATTERN@, BUS_ID_GROUP@),
            registry matches Ok(found) ==> found@ == scanned_registry(
                PARSABLE_PATTERN@,
                BUS_ID_GROUP@,
                self.0@,
            ) && drawn_from(found@, self.0@),
            registry matches Err(fault) ==> fault == pattern_fault(PARSABLE_PATTERN@),
    {
        match ListingFormat::LocalParsable.parser() {
            Ok(parser) => Ok(parser.parse(self.0.as_str())),
            Err(fault) => Err(fault),
        }
    }
}

impl ListMountable {
    /// The bus identifiers of the offered devices, by vendor/product
    /// identifier.
    pub fn build_usbid_map(&self) -> (registry: Result<Registry<BusId>, ConfigurationError>)
        ensures
            registry is Ok == pattern_accepted(HUMAN_PATTERN@, BUS_ID_GROUP@),
            registry matches Ok(found) ==> found@ == scanned_registry(
                HUMAN_PATTERN@,
                BUS_ID_GROUP@,
                self.0@,
            ) && drawn_from(found@, self.0@),
            registry matches Err(fault) ==> fault == pattern_fault(HUMAN_PATTERN@),
    {
        match ListingFormat::Human.parser() {
            Ok(parser) => Ok(parser.parse(self.0.as_str())),
            Err(fault) => Err(fault),
        }
    }
}

impl ListUnmountable {
    /// The ports of the attached devices, by vendor/product identifier.
    pub fn build_usbid_map(&self) -> (registry: Result<Registry<Port>, ConfigurationError>)
        ensures
            registry is Ok == pattern_accepted(PORTS_PATTERN@, PORT_GROUP@),
            registry matches Ok(found) ==> found@ == scanned_registry(
                PORTS_PATTERN@,
                PORT_GROUP@,
                self.0@,
            ) && drawn_from(found@, self.0@),
            registry matches Err(fault) ==> fault == pattern_fault(PORTS_PATTERN@),
    {
        match ListingFormat::AttachedPorts.parser() {
            Ok(parser) => Ok(parser.parse(self.0.as_str())),
            Err(fault) => Err(fault),
        }
    }
}

} // verus!
