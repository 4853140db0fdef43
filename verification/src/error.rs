//! The reasons why an input is refused.

use vstd::prelude::*;

verus! {

/// Why an input was refused.
#[derive(Clone, Copy, Debug, PartialEq, Eq, Structural)]
pub enum InputError {
    /// The address part is no IPv4 and no IPv6 address.
    MalformedAddress,
    /// The prefix length is missing or is no number from 0 to 255.
    MalformedPrefix,
    /// The prefix length is a number above what the address family allows.
    PrefixOutOfRange,
}

impl InputError {
    /// The words that tell the reason.
    pub open spec fn message_text(self) -> Seq<char> {
        match self {
            InputError::MalformedAddress => "malformed address literal"@,
            InputError::MalformedPrefix => "malformed prefix-length literal"@,
            InputError::PrefixOutOfRange => "prefix length out of range"@,
        }
    }

    /// The words that tell the reason.
    pub fn message(&self) -> (message: &'static str)
        ensures
            message@ == self.message_text(),
    {
        match self {
            InputError::MalformedAddress => "malformed address literal",
            InputError::MalformedPrefix => "malformed prefix-length literal",
            InputError::PrefixOutOfRange => "prefix length out of range",
        }
    }
}

} // verus!
