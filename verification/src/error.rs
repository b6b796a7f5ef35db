use vstd::prelude::*;

verus! {

/// Everything that can go wrong while validating an instruction. All kinds
/// are terminal: the handler aborts on the first violated precondition and
/// never partially succeeds.
#[derive(Clone, Copy, Debug, PartialEq, Eq, Structural)]
pub enum ErrorKind {
    /// Fewer than the six required accounts were supplied.
    NotEnoughAccounts,
    /// The authority account did not sign the call.
    MissingRequiredSignature,
    /// The developer account is not the fixed developer wallet, or a
    /// balance record failed to decode.
    InvalidAccountData,
    /// The payload is not exactly eight bytes.
    InvalidInstructionData,
}

} // verus!
