use vstd::prelude::*;
use vstd::slice::slice_to_vec;
use crate::bet::{Bet, Bumps};
use crate::error::DiceError;
use crate::outcome::{compute_payout, derive_roll, payout_of, roll_of, sha256_of, HOUSE_EDGE};
use crate::sysvar::{ed25519_program_address, ed25519_program_id};
use crate::verify::{check_signature_instruction, instruction_verdict, SignatureInstruction};

verus! {

/// Smallest wager, in lamports (0.01 SOL).
pub const MIN_BET: u64 = 10_000_000;

/// Lowest target roll.
pub const MIN_ROLL: u8 = 2;

/// Highest target roll.
pub const MAX_ROLL: u8 = 96;

/// Slots that must pass after the commit before a bet can be refunded.
pub const REFUND_TIMEOUT: u64 = 1000;

/// A holder of funds.
#[derive(Clone, Copy, Debug, PartialEq, Eq, Structural)]
pub enum Party {
    /// The player of the bet.
    Player,
    /// The house vault.
    Vault,
}

/// A movement of lamports that the host is to perform. When the vault pays,
/// `vault_bump` is the bump with which the vault's address signs.
#[derive(Clone, Copy, Debug, PartialEq, Eq, Structural)]
pub struct Transfer {
    pub from: Party,
    pub to: Party,
    pub amount: u64,
    pub vault_bump: Option<u8>,
}

/// The verdict on a wager: target in `2..=96`, amount between the minimum and
/// `max_bet`.
pub open spec fn wager_verdict(roll: u8, amount: u64, max_bet: u64) -> Result<(), DiceError> {
    if roll < MIN_ROLL {
        Err(DiceError::MinimumRoll)
    } else if roll > MAX_ROLL {
        Err(DiceError::MaximumRoll)
    } else if amount < MIN_BET {
        Err(DiceError::MinimumBet)
    } else if amount > max_bet {
        Err(DiceError::MaximumBet)
    } else {
        Ok(())
    }
}

/// Checks a wager's target roll and amount.
pub fn check_wager(roll: u8, amount: u64, max_bet: u64) -> (r: Result<(), DiceError>)
    ensures
        r == wager_verdict(roll, amount, max_bet),
{
    if roll < MIN_ROLL {
        Err(DiceError::MinimumRoll)
    } else if roll > MAX_ROLL {
        Err(DiceError::MaximumRoll)
    } else if amount < MIN_BET {
        Err(DiceError::MinimumBet)
    } else if amount > max_bet {
        Err(DiceError::MaximumBet)
    } else {
        Ok(())
    }
}

/// Placing a bet: the player, the house, and the bet record being created.
pub struct PlaceBet {
    pub player: Vec<u8>,
    pub house: Vec<u8>,
    pub bet: Option<Bet>,
}

impl PlaceBet {
    /// Records a new bet committed at `slot`, after checking that no bet is
    /// recorded yet, the wager against `max_bet`, and that the bet's bump is
    /// known.
    pub fn create_bet(
        &mut self,
        bumps: &Bumps,
        seed: u128,
        roll: u8,
        amount: u64,
        max_bet: u64,
        slot: u64,
    ) -> (r: Result<(), DiceError>)
        ensures
            old(self).bet is Some ==> r == Err::<(), DiceError>(DiceError::BetExists),
            old(self).bet is None && wager_verdict(roll, amount, max_bet) is Err ==> r == wager_verdict(
                roll,
                amount,
                max_bet,
            ),
            old(self).bet is None && wager_verdict(roll, amount, max_bet) is Ok && bumps.bet is None ==> r == Err::<
                (),
                DiceError,
            >(DiceError::BumpError),
            r is Err ==> final(self).bet == old(self).bet,
            r is Ok <==> (old(self).bet is None && wager_verdict(roll, amount, max_bet) is Ok
                && bumps.bet is Some),
            r is Ok ==> (final(self).bet matches Some(b) && b.slot == slot && b.player@
                == old(self).player@ && b.seed == seed && b.roll == roll && b.amount == amount
                && Some(b.bump) == bumps.bet),
            final(self).player == old(self).player,
            final(self).house == old(self).house,
    {
        if self.bet.is_some() {
            return Err(DiceError::BetExists);
        }
        check_wager(roll, amount, max_bet)?;
        let bump = match bumps.bet {
            Some(b) => b,
            None => return Err(DiceError::BumpError),
        };
        let player = slice_to_vec(self.player.as_slice());
        self.bet = Some(Bet { slot, player, seed, roll, amount, bump });
        Ok(())
    }

    /// The deposit of the wager from the player into the vault.
    pub fn deposit(&self, amount: u64) -> (r: Transfer)
        ensures
            r == (Transfer { from: Party::Player, to: Party::Vault, amount, vault_bump: None }),
    {
        Transfer { from: Party::Player, to: Party::Vault, amount, vault_bump: None }
    }
}

/// Whether a refund asked for at `current_slot` comes after the timeout of a
/// bet committed at `commit_slot`.
pub open spec fn timed_out(commit_slot: u64, current_slot: u64) -> bool {
    current_slot - commit_slot > REFUND_TIMEOUT
}

/// Refunding a bet that was not resolved in time.
pub struct RefundBet {
    pub player: Vec<u8>,
    pub house: Vec<u8>,
    pub bet: Option<Bet>,
}

impl RefundBet {
    /// Closes the bet and pays the full wager back from the vault, once more
    /// than the timeout has passed since the commit slot.
    pub fn refund_bet(&mut self, bumps: &Bumps, current_slot: u64) -> (r: Result<
        Transfer,
        DiceError,
    >)
        ensures
            old(self).bet is None ==> r == Err::<Transfer, DiceError>(DiceError::BetClosed),
            old(self).bet matches Some(b) ==> r == (if !timed_out(b.slot, current_slot) {
                Err::<Transfer, DiceError>(DiceError::TimeoutNotReached)
            } else if bumps.vault is None {
                Err(DiceError::BumpError)
            } else {
                Ok(
                    Transfer {
                        from: Party::Vault,
                        to: Party::Player,
                        amount: b.amount,
                        vault_bump: bumps.vault,
                    },
                )
            }),
            r is Ok ==> final(self).bet is None,
            r is Err ==> final(self).bet == old(self).bet,
            final(self).player == old(self).player,
            final(self).house == old(self).house,
    {
        let (slot, amount) = match &self.bet {
            Some(b) => (b.slot, b.amount),
            None => return Err(DiceError::BetClosed),
        };
        if !(current_slot > slot && current_slot - slot > REFUND_TIMEOUT) {
            return Err(DiceError::TimeoutNotReached);
        }
        if bumps.vault.is_none() {
            return Err(DiceError::BumpError);
        }
        self.bet = None;
        Ok(Transfer { from: Party::Vault, to: Party::Player, amount, vault_bump: bumps.vault })
    }
}

/// What settling `bet` at `roll` owes: nothing on a loss; on a win (target
/// strictly above the roll) the payout, paid by the vault.
pub open spec fn settlement(bet_roll: u8, amount: u64, roll: u8, bumps: Bumps) -> Result<
    Option<Transfer>,
    DiceError,
> {
    if bet_roll > roll {
        match payout_of(amount as u128, bet_roll, HOUSE_EDGE) {
            None => Err(DiceError::Overflow),
            Some(p) => if p > u64::MAX {
                Err(DiceError::Overflow)
            } else if bumps.vault is None {
                Err(DiceError::BumpError)
            } else {
                Ok(
                    Some(
                        Transfer {
                            from: Party::Vault,
                            to: Party::Player,
                            amount: p as u64,
                            vault_bump: bumps.vault,
                        },
                    ),
                )
            },
        }
    } else {
        Ok(None)
    }
}

/// Settles a bet whose target is `bet_roll` and wager `amount` against the
/// derived `roll`.
pub fn settle(bet_roll: u8, amount: u64, roll: u8, bumps: &Bumps) -> (r: Result<
    Option<Transfer>,
    DiceError,
>)
    ensures
        r == settlement(bet_roll, amount, roll, *bumps),
{
    if bet_roll > roll {
        let payout = compute_payout(amount as u128, bet_roll, HOUSE_EDGE)?;
        if payout > u64::MAX as u128 {
            return Err(DiceError::Overflow);
        }
        let vault_bump = match bumps.vault {
            Some(b) => b,
            None => return Err(DiceError::BumpError),
        };
        Ok(
            Some(
                Transfer {
                    from: Party::Vault,
                    to: Party::Player,
                    amount: payout as u64,
                    vault_bump: Some(vault_bump),
                },
            ),
        )
    } else {
        Ok(None)
    }
}

/// Resolving a bet with the house's revealed signature.
pub struct ResolveBet {
    pub house: Vec<u8>,
    pub player: Vec<u8>,
    pub bet: Option<Bet>,
    /// The first instruction of the transaction, which must be the ed25519
    /// program's check of the house's signature.
    pub instruction: SignatureInstruction,
}

impl ResolveBet {
    /// Checks that the transaction's first instruction verified `sig` as the
    /// house's signature over this bet's message.
    pub fn verify_ed25519_signature(&self, sig: &[u8]) -> (r: Result<(), DiceError>)
        ensures
            self.bet is None ==> r == Err::<(), DiceError>(DiceError::BetClosed),
            self.bet matches Some(b) ==> r == instruction_verdict(
                self.instruction,
                ed25519_program_address(),
                self.house@,
                sig@,
                b.message(),
            ),
    {
        let message = match &self.bet {
            Some(b) => b.to_slice(),
            None => return Err(DiceError::BetClosed),
        };
        let program = ed25519_program_id();
        check_signature_instruction(
            &self.instruction,
            program.as_slice(),
            self.house.as_slice(),
            sig,
            message.as_slice(),
        )
    }

    /// Derives the roll from `sig`, settles the bet, and closes it.
    pub fn resolve_bet(&mut self, bumps: &Bumps, sig: &[u8]) -> (r: Result<
        Option<Transfer>,
        DiceError,
    >)
        ensures
            old(self).bet is None ==> r == Err::<Option<Transfer>, DiceError>(DiceError::BetClosed),
            old(self).bet matches Some(b) ==> r == settlement(
                b.roll,
                b.amount,
                roll_of(sha256_of(sig@)),
                *bumps,
            ),
            r is Ok ==> final(self).bet is None,
            r is Err ==> final(self).bet == old(self).bet,
            final(self).house == old(self).house,
            final(self).player == old(self).player,
            final(self).instruction == old(self).instruction,
    {
        let (bet_roll, amount) = match &self.bet {
            Some(b) => (b.roll, b.amount),
            None => return Err(DiceError::BetClosed),
        };
        let roll = derive_roll(sig);
        let outcome = settle(bet_roll, amount, roll, bumps)?;
        self.bet = None;
        Ok(outcome)
    }

    /// The whole resolve-bet operation: checks that `sig` is the house's
    /// verified signature over this bet, then settles and closes the bet.
    pub fn resolve(&mut self, bumps: &Bumps, sig: &[u8]) -> (r: Result<
        Option<Transfer>,
        DiceError,
    >)
        ensures
            old(self).bet is None ==> r == Err::<Option<Transfer>, DiceError>(DiceError::BetClosed),
            old(self).bet matches Some(b) ==> r == (match instruction_verdict(
                old(self).instruction,
                ed25519_program_address(),
                old(self).house@,
                sig@,
                b.message(),
            ) {
                Err(e) => Err::<Option<Transfer>, DiceError>(e),
                Ok(_) => settlement(b.roll, b.amount, roll_of(sha256_of(sig@)), *bumps),
            }),
            r is Ok ==> (old(self).bet matches Some(b) && instruction_verdict(
                old(self).instruction,
                ed25519_program_address(),
                old(self).house@,
                sig@,
                b.message(),
            ) is Ok),
            r is Ok ==> final(self).bet is None,
            r is Err ==> final(self).bet == old(self).bet,
            final(self).house == old(self).house,
            final(self).player == old(self).player,
            final(self).instruction == old(self).instruction,
    {
        self.verify_ed25519_signature(sig)?;
        self.resolve_bet(bumps, sig)
    }
}


/// A bet on target 50 with wager `amount`: a derived roll below 50 pays
/// `amount * 9850 / 49 / 100` from the vault, any other roll pays nothing.
/// The win needs that payout to fit in 64 bits.
pub proof fn lemma_target_fifty_settlement(amount: u64, roll: u8, vault_bump: u8, bumps: Bumps)
    requires
        bumps.vault == Some(vault_bump),
        roll < 50 ==> amount * 9850 / 49 / 100 <= u64::MAX,
    ensures
        roll < 50 ==> settlement(50, amount, roll, bumps) == Ok::<Option<Transfer>, DiceError>(
            Some(
                Transfer {
                    from: Party::Vault,
                    to: Party::Player,
                    amount: (amount * 9850 / 49 / 100) as u64,
                    vault_bump: Some(vault_bump),
                },
            ),
        ),
        roll >= 50 ==> settlement(50, amount, roll, bumps) == Ok::<Option<Transfer>, DiceError>(
            None,
        ),
{
    assert(amount * 9850 <= u128::MAX) by (nonlinear_arith)
        requires amount <= u64::MAX;
}

} // verus!
