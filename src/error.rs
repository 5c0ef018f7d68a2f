use vstd::prelude::*;

verus! {

/// Every way an operation of the game can fail; each aborts the whole request.
#[derive(Clone, Copy, Debug, PartialEq, Eq, Structural)]
pub enum DiceError {
    /// A required derivation bump is missing.
    BumpError,
    /// A checked multiplication, division or narrowing failed.
    Overflow,
    /// The wager is below the minimum.
    MinimumBet,
    /// The wager is above the maximum.
    MaximumBet,
    /// The target roll is below 2.
    MinimumRoll,
    /// The target roll is above 96.
    MaximumRoll,
    /// A refund was asked for before the timeout elapsed.
    TimeoutNotReached,
    /// The signature entry is not fully embedded.
    Ed25519Header,
    /// The public key is missing or is not the house's.
    Ed25519Pubkey,
    /// The message is missing or is not the bet's serialization.
    Ed25519Message,
    /// The signature is missing or is not the revealed one.
    Ed25519Signature,
    /// The inspected instruction is not addressed to the ed25519 program.
    Ed25519Program,
    /// The inspected instruction carries accounts.
    Ed25519Accounts,
    /// The instruction does not carry exactly one signature.
    Ed25519DataLength,
    /// The ed25519 instruction data is malformed.
    InvalidInstructionData,
    /// The bet record was already settled.
    BetClosed,
    /// A bet is already recorded at this address.
    BetExists,
}

} // verus!
