use vstd::prelude::*;

verus! {

/// Every way an operation of the bond registry can reject. Rejections are
/// all-or-nothing: a function that returns one of these leaves every piece
/// of registry state exactly as it was.
#[derive(Clone, Copy, Debug, PartialEq, Eq, Structural)]
pub enum BondError {
    /// A vesting term below the minimum of 432000 time units was supplied.
    VestingTooShort,
    /// A payout cap below the minimum of 1000 was supplied.
    MaxPayoutTooSmall,
    /// A fee below 10000 was supplied: the setter deliberately requires
    /// `fee >= 10000`, even though its user-facing message calls the fee
    /// too big.
    FeeRejected,
    /// An adjustment rate below `vesting_term * 30 / 1000` was supplied.
    RateTooSmall,
    /// The caller of an owner-only operation is not the registry's owner.
    NotOwner,
    /// The named payment asset has no registered bond.
    UnknownBond,
    /// The named depositor has no holder record for this bond.
    NoBondHolder,
    /// A pricing division had a zero divisor: the payout asset's supply, or
    /// a computed bond price of zero.
    DivisionByZero,
    /// The computed payout exceeds the bond's remaining balance for sale.
    BondTooLarge,
    /// The asynchronous total-supply query came back failed; the deposit
    /// workflow ends without touching any state.
    SupplyQueryFailed,
    /// The asynchronous mint request came back failed; the redeem workflow
    /// ends without touching any state.
    MintFailed,
    /// The minted amount exceeds the holder's remaining payout owed.
    MintExceedsPayout,
}

} // verus!
