use vstd::prelude::*;

verus! {

/// Every way an instruction can be turned down.
///
/// Whichever of these is returned, the accounts handed to the failing call
/// are left exactly as they were.
#[derive(Clone, Copy, Debug, PartialEq, Eq, Structural)]
pub enum LedgerError {
    /// The payload is empty, names an unknown opcode, or does not hold
    /// exactly the argument bytes that its opcode takes.
    InvalidInstructionData,
    /// Fewer accounts were supplied than the instruction reads.
    NotEnoughAccountKeys,
    /// The targeted account is not owned by this program.
    OwnershipError,
    /// The account's data is not a twelve-byte balance record.
    InvalidAccountData,
    /// A debit asks for more than the current balance.
    InsufficientFunds,
    /// A counter would leave the 32-bit range.
    OverflowError,
    /// The balance record could not be allocated: the target is not the
    /// address derived for the user, or the host rejected the allocation.
    ProvisionFailed,
}

} // verus!
