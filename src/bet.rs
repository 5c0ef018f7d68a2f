use vstd::prelude::*;

verus! {

/// The `n` little-endian bytes of `x` (higher bytes dropped).
pub open spec fn le_bytes(x: nat, n: nat) -> Seq<u8>
    decreases n,
{
    if n == 0 {
        Seq::empty()
    } else {
        seq![(x % 256) as u8] + le_bytes(x / 256, (n - 1) as nat)
    }
}

/// Appends the `n` little-endian bytes of `x` to `out`.
fn push_le(out: &mut Vec<u8>, x: u128, n: usize)
    ensures
        final(out)@ == old(out)@ + le_bytes(x as nat, n as nat),
    decreases n,
{
    if n > 0 {
        out.push((x % 256) as u8);
        push_le(out, x / 256, n - 1);
        assert(final(out)@ =~= old(out)@ + le_bytes(x as nat, n as nat));
    } else {
        assert(final(out)@ =~= old(out)@ + le_bytes(x as nat, n as nat));
    }
}

/// A wager placed by a player and not yet settled.
#[derive(Clone, Debug)]
pub struct Bet {
    /// Slot at which the bet was committed.
    pub slot: u64,
    /// The player's 32-byte public key.
    pub player: Vec<u8>,
    /// Seed chosen by the player.
    pub seed: u128,
    /// Target: the player wins when the derived roll is strictly below it.
    pub roll: u8,
    /// Wager in lamports.
    pub amount: u64,
    /// Derivation bump of the bet's own address.
    pub bump: u8,
}

/// The message the house signs for a bet: slot (8 bytes), player (32), seed
/// (16), target roll (1), amount (8), bump (1), integers little-endian.
pub open spec fn bet_message(slot: u64, player: Seq<u8>, seed: u128, roll: u8, amount: u64, bump: u8) -> Seq<u8> {
    le_bytes(slot as nat, 8) + player + le_bytes(seed as nat, 16) + seq![roll] + le_bytes(
        amount as nat,
        8,
    ) + seq![bump]
}

impl Bet {
    /// The bytes this bet is signed as.
    pub open spec fn message(&self) -> Seq<u8> {
        bet_message(self.slot, self.player@, self.seed, self.roll, self.amount, self.bump)
    }

    /// Serializes the bet into the message that the house signs.
    pub fn to_slice(&self) -> (r: Vec<u8>)
        ensures
            r@ == self.message(),
    {
        let mut out: Vec<u8> = Vec::new();
        push_le(&mut out, self.slot as u128, 8);
        let mut i: usize = 0;
        while i < self.player.len()
            invariant
                i <= self.player@.len(),
                out@ == le_bytes(self.slot as nat, 8) + self.player@.subrange(0, i as int),
            decreases self.player@.len() - i,
        {
            out.push(self.player[i]);
            i = i + 1;
            assert(out@ =~= le_bytes(self.slot as nat, 8) + self.player@.subrange(0, i as int));
        }
        assert(self.player@.subrange(0, i as int) =~= self.player@);
        push_le(&mut out, self.seed, 16);
        out.push(self.roll);
        push_le(&mut out, self.amount as u128, 8);
        out.push(self.bump);
        assert(out@ =~= self.message());
        out
    }
}

/// Derivation bumps that the host supplies for an operation; a missing one
/// is an error of the operation that needs it.
#[derive(Clone, Copy, Debug, PartialEq, Eq, Structural)]
pub struct Bumps {
    /// Bump of the house vault's address.
    pub vault: Option<u8>,
    /// Bump of the bet's address.
    pub bet: Option<u8>,
}

} // verus!
