//! The reasons for which the store rejects an instruction.

use vstd::prelude::*;

verus! {

/// Why an instruction was rejected. A rejected instruction leaves every
/// account as it found it.
#[derive(Clone, Copy, Debug, PartialEq, Eq, Structural)]
pub enum ErrorCode {
    /// The text handed to the create instruction has more than
    /// [`MAX_TEXT_CHARS`](crate::layout::MAX_TEXT_CHARS) characters.
    TextTooLong,
    /// The signer of an update or mark-done instruction is not the author
    /// stored in the record.
    AuthorizationMismatch,
}

} // verus!
