//! The ways in which a run can fail.

use vstd::prelude::*;

verus! {

/// Why a run was abandoned. Every failure ends the run at once.
#[derive(Clone, Copy, Debug, PartialEq, Eq, Structural)]
pub enum PipelineError {
    /// The configuration is missing or does not have the expected shape.
    Configuration,
    /// A feed or an article could not be fetched.
    Network,
    /// A fetched document could not be read as what it should be.
    Parse,
    /// The sanitizer reported an error.
    Sanitization,
    /// The book does not take a chapter, or cannot be put together.
    Assembly,
    /// The book file could not be written or read.
    Io,
    /// The sender's or the recipient's address is not a valid address.
    Validation,
    /// The mail relay could not be reached, refused the credentials or refused the message.
    Transport,
}

} // verus!
