//! Why a generation pass produced nothing.

use vstd::prelude::*;
use vstd::string::*;

verus! {

/// The input of a generation pass contradicts itself.  A pass that fails
/// emits no text at all.
#[derive(Clone, Copy, Debug, PartialEq, Eq, Structural)]
pub enum GenerationError {
    /// A native type signature is registered more than once over the
    /// conversion and the projection table taken together.
    AmbiguousRule,
    /// A command's prototype or one of its parameters has no type signature
    /// at all, so that nothing can stand for it in a wrapper.
    MissingType,
    /// A canonical command name is registered twice in the alias table.
    InconsistentAliases,
}

pub const AMBIGUOUS_RULE_MESSAGE: &'static str =
    "a native type signature matches more than one rule";

pub const MISSING_TYPE_MESSAGE: &'static str = "a command or parameter has no type signature";

pub const INCONSISTENT_ALIASES_MESSAGE: &'static str =
    "a command name has two entries in the alias table";

impl GenerationError {
    /// What went wrong, in words.
    pub open spec fn message_text(self) -> Seq<char> {
        match self {
            GenerationError::AmbiguousRule => AMBIGUOUS_RULE_MESSAGE@,
            GenerationError::MissingType => MISSING_TYPE_MESSAGE@,
            GenerationError::InconsistentAliases => INCONSISTENT_ALIASES_MESSAGE@,
        }
    }

    /// What went wrong, in words.
    pub fn message(&self) -> (r: String)
        ensures
            r@ == self.message_text(),
    {
        match self {
            GenerationError::AmbiguousRule => AMBIGUOUS_RULE_MESSAGE.to_owned(),
            GenerationError::MissingType => MISSING_TYPE_MESSAGE.to_owned(),
            GenerationError::InconsistentAliases => INCONSISTENT_ALIASES_MESSAGE.to_owned(),
        }
    }
}

} // verus!
