//! The registry parser: a validated scanning pattern that turns the text of
//! a listing into a registry.

use vstd::prelude::*;
use crate::ident::{BusId, Token};
use crate::pattern::{
    capture_pairs,
    compile_group_names,
    declares_exactly,
    has_exact_groups,
    named_groups,
    pattern_captures,
    pattern_compiles,
    pattern_group_names,
};
use crate::registry::{drawn_from, registry_of, Registry};

verus! {

/// The name of the capture group that holds the vendor/product identifier
/// in every scanning pattern.
pub const USB_ID_GROUP: &'static str = "usbid";

/// The name of the capture group that holds the bus identifier in the
/// patterns for the listings of bus locations.
pub const BUS_ID_GROUP: &'static str = "busid";

/// The name of the capture group that holds the port in the pattern for the
/// listing of attached devices.
pub const PORT_GROUP: &'static str = "port";

/// Why a scanning pattern was refused. Both are faults of the program,
/// not of the text that is scanned.
#[derive(Debug, Clone, Copy, PartialEq, Eq, Structural)]
pub enum ConfigurationError {
    /// The pattern is no regular expression that `regex` compiles.
    InvalidPattern,
    /// The pattern's named capture groups are not exactly the handle group
    /// and the identifier group.
    WrongGroups,
}

/// Whether `pattern` may scan for handles in the group named `handle_group`:
/// it compiles, and its named capture groups are that group and the
/// identifier group and no other.
pub open spec fn pattern_accepted(pattern: Seq<char>, handle_group: Seq<char>) -> bool {
    &&& pattern_compiles(pattern)
    &&& declares_exactly(pattern_group_names(pattern), handle_group, USB_ID_GROUP@)
}

/// What is wrong with a pattern that is not accepted.
pub open spec fn pattern_fault(pattern: Seq<char>) -> ConfigurationError {
    if pattern_compiles(pattern) {
        ConfigurationError::WrongGroups
    } else {
        ConfigurationError::InvalidPattern
    }
}

/// The registry that scanning `text` with an accepted pattern gives.
pub open spec fn scanned_registry(
    pattern: Seq<char>,
    handle_group: Seq<char>,
    text: Seq<char>,
) -> Map<Seq<char>, Set<Seq<char>>> {
    registry_of(pattern_captures(pattern, text, handle_group, USB_ID_GROUP@))
}

/// Names that lack either of the two groups do not declare exactly the two.
pub proof fn lemma_missing_group(
    names: Seq<Option<Seq<char>>>,
    first: Seq<char>,
    second: Seq<char>,
)
    requires
        !names.contains(Some(first)) || !names.contains(Some(second)),
    ensures
        !declares_exactly(names, first, second),
{
    if !names.contains(Some(first)) {
        assert(set![first, second].contains(first));
    } else {
        assert(set![first, second].contains(second));
    }
}

/// A pattern that lacks the handle group or the identifier group is not
/// accepted: the parser is refused with a configuration error, whatever
/// text was to be scanned.
pub proof fn lemma_pattern_missing_group_refused(pattern: Seq<char>, handle_group: Seq<char>)
    requires
        !pattern_group_names(pattern).contains(Some(handle_group)) || !pattern_group_names(
            pattern,
        ).contains(Some(USB_ID_GROUP@)),
    ensures
        !pattern_accepted(pattern, handle_group),
{
    lemma_missing_group(pattern_group_names(pattern), handle_group, USB_ID_GROUP@);
}

/// Two registries scanned from the same text with the same pattern have the
/// same keys and the same set of handles under each key.
pub proof fn lemma_scan_is_stable<T: Token>(
    first: &Registry<T>,
    second: &Registry<T>,
    pattern: Seq<char>,
    handle_group: Seq<char>,
    text: Seq<char>,
)
    requires
        first@ == scanned_registry(pattern, handle_group, text),
        second@ == scanned_registry(pattern, handle_group, text),
    ensures
        first@ == second@,
        first@.dom() == second@.dom(),
        forall|id: Seq<char>| first@.contains_key(id) ==> first@[id] == second@[id],
{
}

/// A scanning pattern that was found to declare exactly the two capture
/// groups it is read for.
#[derive(Debug)]
pub struct RegistryParser {
    pattern: String,
    handle_group: String,
}

impl RegistryParser {
    /// The pattern, as it was given.
    pub closed spec fn pattern(&self) -> Seq<char> {
        self.pattern@
    }

    /// The name of the group that the handles are read from.
    pub closed spec fn handle_group(&self) -> Seq<char> {
        self.handle_group@
    }

    /// What holds of every parser: its pattern is accepted.
    #[verifier::type_invariant]
    pub closed spec fn wf(&self) -> bool {
        pattern_accepted(self.pattern@, self.handle_group@)
    }

    /// Checks `pattern` before anything is scanned with it.
    pub fn new(pattern: &str, handle_group: &str) -> (parser: Result<Self, ConfigurationError>)
        ensures
            parser is Ok == pattern_accepted(pattern@, handle_group@),
            parser matches Ok(p) ==> p.pattern() == pattern@ && p.handle_group() == handle_group@,
            parser matches Err(fault) ==> fault == pattern_fault(pattern@),
    {
        match compile_group_names(pattern) {
            Ok(names) => {
                if has_exact_groups(&names, handle_group, USB_ID_GROUP) {
                    Ok(
                        RegistryParser {
                            pattern: pattern.to_owned(),
                            handle_group: handle_group.to_owned(),
                        },
                    )
                } else {
                    Err(ConfigurationError::WrongGroups)
                }
            },
            Err(_) => Err(ConfigurationError::InvalidPattern),
        }
    }

    /// Scans `text` and folds what was captured into a registry. Text that
    /// the pattern does not match is passed over.
    pub fn parse<T: Token>(&self, text: &str) -> (registry: Registry<T>)
        ensures
            registry@ == scanned_registry(self.pattern(), self.handle_group(), text@),
            drawn_from(registry@, text@),
    {
        proof {
            use_type_invariant(self);
        }
        match capture_pairs(
            self.pattern.as_str(),
            text,
            self.handle_group.as_str(),
            USB_ID_GROUP,
        ) {
            Ok(pairs) => {
                Registry::from_captures(pairs)
            },
            // The pattern compiled when the parser was made, so it compiles now.
            Err(_) => Registry::new(),
        }
    }
}

/// Scans `source` with `pattern` for bus identifiers: the registry of what
/// was found, or what is wrong with the pattern.
pub fn build_usbid_map_helper(source: &str, pattern: &str) -> (registry: Result<
    Registry<BusId>,
    ConfigurationError,
>)
    ensures
        registry is Ok == pattern_accepted(pattern@, BUS_ID_GROUP@),
        registry matches Ok(found) ==> found@ == scanned_registry(
            pattern@,
            BUS_ID_GROUP@,
            source@,
        ) && drawn_from(found@, source@),
        registry matches Err(fault) ==> fault == pattern_fault(pattern@),
{
    match RegistryParser::new(pattern, BUS_ID_GROUP) {
        Ok(parser) => Ok(parser.parse(source)),
        Err(fault) => Err(fault),
    }
}

} // verus!
