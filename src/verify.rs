use vstd::prelude::*;
use crate::ed25519::{
    bundle_of, canonical_data, lemma_canonical_layout, Ed25519InstructionSignatures, SignatureModel,
};
use crate::error::DiceError;

verus! {

/// Whether two byte strings are equal.
pub fn bytes_eq(a: &[u8], b: &[u8]) -> (r: bool)
    ensures
        r == (a@ == b@),
{
    if a.len() != b.len() {
        return false;
    }
    let mut i: usize = 0;
    while i < a.len()
        invariant
            a@.len() == b@.len(),
            i <= a@.len(),
            a@.subrange(0, i as int) == b@.subrange(0, i as int),
        decreases a@.len() - i,
    {
        if a[i] != b[i] {
            assert(a@[i as int] != b@[i as int]);
            return false;
        }
        assert(a@.subrange(0, i + 1) =~= a@.subrange(0, i as int).push(a@[i as int]));
        assert(b@.subrange(0, i + 1) =~= b@.subrange(0, i as int).push(b@[i as int]));
        i = i + 1;
    }
    assert(a@ =~= a@.subrange(0, i as int));
    assert(b@ =~= b@.subrange(0, i as int));
    true
}

/// The verdict on a parsed bundle: it must hold exactly one entry, fully
/// embedded, signed by `signer`, carrying `signature` over `message`.
pub open spec fn bundle_verdict(
    bundle: Seq<SignatureModel>,
    signer: Seq<u8>,
    signature: Seq<u8>,
    message: Seq<u8>,
) -> Result<(), DiceError> {
    if bundle.len() != 1 {
        Err(DiceError::Ed25519DataLength)
    } else if !bundle[0].is_verifiable {
        Err(DiceError::Ed25519Header)
    } else if bundle[0].public_key != Some(signer) {
        Err(DiceError::Ed25519Pubkey)
    } else if bundle[0].signature != Some(signature) {
        Err(DiceError::Ed25519Signature)
    } else if bundle[0].message != Some(message) {
        Err(DiceError::Ed25519Message)
    } else {
        Ok(())
    }
}

/// Whether an optional buffer is present and holds `expected`.
fn holds(field: &Option<Vec<u8>>, expected: &[u8]) -> (r: bool)
    ensures
        r == (crate::ed25519::bytes_of(*field) == Some(expected@)),
{
    match field {
        Some(v) => bytes_eq(v.as_slice(), expected),
        None => false,
    }
}

/// Checks a parsed bundle against the expected signer, signature and message.
pub fn verify_bundle(
    bundle: &Ed25519InstructionSignatures,
    signer: &[u8],
    signature: &[u8],
    message: &[u8],
) -> (r: Result<(), DiceError>)
    ensures
        r == bundle_verdict(bundle@, signer@, signature@, message@),
{
    if bundle.0.len() != 1 {
        return Err(DiceError::Ed25519DataLength);
    }
    let entry = &bundle.0[0];
    assert(bundle@[0] == entry@);
    if !entry.is_verifiable {
        return Err(DiceError::Ed25519Header);
    }
    if !holds(&entry.public_key, signer) {
        return Err(DiceError::Ed25519Pubkey);
    }
    if !holds(&entry.signature, signature) {
        return Err(DiceError::Ed25519Signature);
    }
    if !holds(&entry.message, message) {
        return Err(DiceError::Ed25519Message);
    }
    Ok(())
}

/// An instruction of the same transaction, as the host loaded it.
#[derive(Clone, Debug)]
pub struct SignatureInstruction {
    /// The program the instruction is addressed to.
    pub program_id: Vec<u8>,
    /// How many accounts it carries.
    pub num_accounts: usize,
    /// Its raw data.
    pub data: Vec<u8>,
}

/// The verdict on an instruction that should be the ed25519 program's check of
/// the house's signature over `message`.
pub open spec fn instruction_verdict(
    ix: SignatureInstruction,
    ed25519_program: Seq<u8>,
    signer: Seq<u8>,
    signature: Seq<u8>,
    message: Seq<u8>,
) -> Result<(), DiceError> {
    if ix.program_id@ != ed25519_program {
        Err(DiceError::Ed25519Program)
    } else if ix.num_accounts != 0 {
        Err(DiceError::Ed25519Accounts)
    } else {
        match bundle_of(ix.data@) {
            None => Err(DiceError::InvalidInstructionData),
            Some(b) => bundle_verdict(b, signer, signature, message),
        }
    }
}

/// Checks an instruction against the ed25519 program's id, then its parsed
/// signatures against the expected signer, signature and message.
pub fn check_signature_instruction(
    ix: &SignatureInstruction,
    ed25519_program: &[u8],
    signer: &[u8],
    signature: &[u8],
    message: &[u8],
) -> (r: Result<(), DiceError>)
    ensures
        r == instruction_verdict(*ix, ed25519_program@, signer@, signature@, message@),
{
    if !bytes_eq(ix.program_id.as_slice(), ed25519_program) {
        return Err(DiceError::Ed25519Program);
    }
    if ix.num_accounts != 0 {
        return Err(DiceError::Ed25519Accounts);
    }
    let bundle = Ed25519InstructionSignatures::unpack(ix.data.as_slice())?;
    verify_bundle(&bundle, signer, signature, message)
}

/// An instruction addressed to the ed25519 program, with no accounts, whose
/// data is the canonical layout built from `signer`, `signature` and
/// `message`, passes the check against those same three values.
pub proof fn lemma_canonical_instruction_accepted(
    ix: SignatureInstruction,
    ed25519_program: Seq<u8>,
    signer: Seq<u8>,
    signature: Seq<u8>,
    message: Seq<u8>,
)
    requires
        ix.program_id@ == ed25519_program,
        ix.num_accounts == 0,
        ix.data@ == canonical_data(signer, signature, message),
        signer.len() == 32,
        signature.len() == 64,
        message.len() <= u16::MAX,
    ensures
        instruction_verdict(ix, ed25519_program, signer, signature, message) == Ok::<(), DiceError>(()),
{
    lemma_canonical_layout(signer, signature, message);
}

} // verus!
