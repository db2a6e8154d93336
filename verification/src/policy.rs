//! The redaction policy: which sensitive payloads a record may carry.

use vstd::prelude::*;

verus! {

/// Two independent switches that gate the sensitive parts of a record.
///
/// A connection locator may embed credentials and statement text may embed
/// literal values, so both are left out unless asked for.
#[derive(Clone, Copy, Debug, PartialEq, Eq, Structural)]
pub struct EmissionPolicy {
    /// Whether the connection locator is recorded.
    pub include_target: bool,
    /// Whether rendered statement text is recorded.
    pub include_statement_text: bool,
}

impl EmissionPolicy {
    /// The policy with the given switches.
    pub fn new(include_target: bool, include_statement_text: bool) -> (policy: Self)
        ensures
            policy.include_target == include_target,
            policy.include_statement_text == include_statement_text,
    {
        EmissionPolicy { include_target, include_statement_text }
    }

    /// The policy that records nothing sensitive.
    pub open spec fn redacted() -> Self {
        EmissionPolicy { include_target: false, include_statement_text: false }
    }
}

impl Default for EmissionPolicy {
    /// Both switches are off by default.
    fn default() -> (policy: Self)
        ensures
            policy == EmissionPolicy::redacted(),
    {
        EmissionPolicy { include_target: false, include_statement_text: false }
    }
}

} // verus!
