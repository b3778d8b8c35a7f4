//! The failures that an instruction reports.

use vstd::prelude::*;

verus! {

/// Why an instruction was refused. No instruction that is refused changes
/// any record.
#[derive(Clone, Copy, Debug, PartialEq, Eq, Structural)]
pub enum ErrorCode {
    /// The signer, or the authority handed in, is not the chief.
    InvalidAuthority,
    /// The entry belongs to another pool.
    InvalidStakePool,
    /// The token account is empty, of another mint, or of another owner.
    InvalidUserOriginalMintTokenAccount,
    /// The edition record is no master edition of a one-of-one mint.
    InvalidMasterEdition,
    /// The metadata program handed in is not the canonical one.
    InvalidMetadataProgram,
    /// The user state was opened for another token account.
    InvalidStakeEntryOriginalMintTokenAccount,
    /// Only the last staker may unstake.
    InvalidUnstakeUser,
    /// The pool's minimum stake time has not passed.
    MinStakeSecondsNotSatisfied,
    /// The cooldown that was started has not run out.
    CooldownSecondRemaining,
    /// The pool's end date has passed.
    StakePoolHasEnded,
    /// A resting level above five.
    InvalidRestingLevel,
    /// A counter would leave the range of its type.
    ArithmeticOverflow,
}

} // verus!
