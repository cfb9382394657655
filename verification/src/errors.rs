//! Error kinds of the execution core.
//!
//! Collaborator failures (persistence, signal transport) are handled by the
//! surrounding application and never reach the core, so only the kinds the
//! core itself produces are modelled here.

use vstd::prelude::*;

verus! {

/// An error raised by the execution core.
///
/// Every rejected input surfaces a specific, human-readable reason in the
/// carried message.
#[derive(Debug, Clone)]
pub enum Error {
    /// Malformed key or signature bytes, or a failed signature verification.
    Crypto(String),
    /// A business-rule validation failure.
    Execution(String),
}

impl Error {
    /// The human-readable reason carried by this error.
    pub open spec fn spec_message(&self) -> Seq<char> {
        match self {
            Error::Crypto(m) => m@,
            Error::Execution(m) => m@,
        }
    }

    /// Returns the human-readable reason carried by this error.
    pub fn message(&self) -> (m: &String)
        ensures
            m@ == self.spec_message(),
    {
        match self {
            Error::Crypto(m) => m,
            Error::Execution(m) => m,
        }
    }
}

} // verus!
