use vstd::prelude::*;

verus! {

/// The address of the instructions sysvar,
/// `Sysvar1nstructions1111111111111111111111111`, as bytes.
pub open spec fn instructions_sysvar_address() -> Seq<u8> {
    seq![
        0x06u8, 0xa7u8, 0xd5u8, 0x17u8, 0x18u8, 0x7bu8, 0xd1u8, 0x66u8,
        0x35u8, 0xdau8, 0xd4u8, 0x04u8, 0x55u8, 0xfdu8, 0xc2u8, 0xc0u8,
        0xc1u8, 0x24u8, 0xc6u8, 0x8fu8, 0x21u8, 0x56u8, 0x75u8, 0xa5u8,
        0xdbu8, 0xbau8, 0xcbu8, 0x5fu8, 0x08u8, 0x00u8, 0x00u8, 0x00u8,
    ]
}

/// The address of the ed25519 native program,
/// `Ed25519SigVerify111111111111111111111111111`, as bytes.
pub open spec fn ed25519_program_address() -> Seq<u8> {
    seq![
        0x03u8, 0x7du8, 0x46u8, 0xd6u8, 0x7cu8, 0x93u8, 0xfbu8, 0xbeu8,
        0x12u8, 0xf9u8, 0x42u8, 0x8fu8, 0x83u8, 0x8du8, 0x40u8, 0xffu8,
        0x05u8, 0x70u8, 0x74u8, 0x49u8, 0x27u8, 0xf4u8, 0x8au8, 0x64u8,
        0xfcu8, 0xcau8, 0x70u8, 0x44u8, 0x80u8, 0x00u8, 0x00u8, 0x00u8,
    ]
}

/// The instructions sysvar, through which a program inspects the other
/// instructions of its transaction.
pub struct InstructionSysvar;

impl InstructionSysvar {
    /// Relies on solana_program::sysvar::instructions::ID: the sysvar's
    /// address, whose bytes are `instructions_sysvar_address()`.
    #[verifier::external_body]
    pub fn id() -> (r: Vec<u8>)
        ensures
            r@ == instructions_sysvar_address(),
    {
        solana_program::sysvar::instructions::ID.to_bytes().to_vec()
    }
}

/// Relies on solana_program::ed25519_program::ID: the ed25519 native
/// program's address, whose bytes are `ed25519_program_address()`.
#[verifier::external_body]
pub(crate) fn ed25519_program_id() -> (r: Vec<u8>)
    ensures
        r@ == ed25519_program_address(),
{
    solana_program::ed25519_program::ID.to_bytes().to_vec()
}

} // verus!
