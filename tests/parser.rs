use soldice::ed25519::{
    locate, Ed25519InstructionOffsets, Ed25519InstructionSignatures, FieldLocation,
};
use soldice::error::DiceError;

fn table(sig: u16, sig_ix: u16, pk: u16, pk_ix: u16, msg: u16, size: u16, msg_ix: u16) -> Vec<u8> {
    let mut v = Vec::new();
    for x in [sig, sig_ix, pk, pk_ix, msg, size, msg_ix] {
        v.extend_from_slice(&x.to_le_bytes());
    }
    v
}

#[test]
fn offsets_new_is_canonical_layout() {
    let t = Ed25519InstructionOffsets::new(&[7u8; 66]);
    assert_eq!(t.signature_offset, 48);
    assert_eq!(t.public_key_offset, 16);
    assert_eq!(t.message_data_offset, 112);
    assert_eq!(t.message_data_size, 66);
    assert_eq!(t.signature_instruction_index, 0xffff);
    assert_eq!(t.public_key_instruction_index, 0xffff);
    assert_eq!(t.message_instruction_index, 0xffff);
}

#[test]
fn offsets_pack_bytes() {
    let t = Ed25519InstructionOffsets::new(&[0u8; 300]);
    assert_eq!(
        t.pack(),
        [48, 0, 0xff, 0xff, 16, 0, 0xff, 0xff, 112, 0, 0x2c, 0x01, 0xff, 0xff]
    );
}

#[test]
fn offsets_round_trip() {
    let t = Ed25519InstructionOffsets {
        signature_offset: 0x1234,
        signature_instruction_index: 0xffff,
        public_key_offset: 0xabcd,
        public_key_instruction_index: 0xffff,
        message_data_offset: 1,
        message_data_size: 0xff00,
        message_instruction_index: 0xffff,
    };
    let b = t.pack();
    assert_eq!(Ed25519InstructionOffsets::unpack(&b), Ok(t));
}

#[test]
fn offsets_unpack_fields_in_order() {
    let b = table(1, 2, 3, 4, 5, 6, 0x0708);
    let t = Ed25519InstructionOffsets::unpack(&b).unwrap();
    assert_eq!(t.signature_offset, 1);
    assert_eq!(t.signature_instruction_index, 2);
    assert_eq!(t.public_key_offset, 3);
    assert_eq!(t.public_key_instruction_index, 4);
    assert_eq!(t.message_data_offset, 5);
    assert_eq!(t.message_data_size, 6);
    assert_eq!(t.message_instruction_index, 0x0708);
}

#[test]
fn offsets_unpack_wrong_length() {
    assert_eq!(
        Ed25519InstructionOffsets::unpack(&[0u8; 13]),
        Err(DiceError::InvalidInstructionData)
    );
    assert_eq!(
        Ed25519InstructionOffsets::unpack(&[0u8; 15]),
        Err(DiceError::InvalidInstructionData)
    );
}

#[test]
fn locate_embedded_and_external() {
    assert_eq!(locate(0xffff, 9, 32), FieldLocation::Embedded { offset: 9, len: 32 });
    assert_eq!(locate(0, 9, 32), FieldLocation::External);
}

#[test]
fn bundle_short_buffers_fail() {
    assert!(Ed25519InstructionSignatures::unpack(&[]).is_err());
    assert!(Ed25519InstructionSignatures::unpack(&[1]).is_err());
}

#[test]
fn bundle_zero_count() {
    let b = Ed25519InstructionSignatures::unpack(&[0, 0]).unwrap();
    assert!(b.0.is_empty());
    assert!(Ed25519InstructionSignatures::unpack(&[0, 0, 0]).is_err());
}

fn external_buffer(n: u8) -> Vec<u8> {
    let mut v = vec![n, 0];
    for _ in 0..n {
        v.extend(table(0, 1, 0, 1, 0, 0, 1));
    }
    v
}

#[test]
fn bundle_exact_length() {
    for n in 1u8..4 {
        let v = external_buffer(n);
        assert_eq!(v.len(), 2 + 14 * n as usize);
        let b = Ed25519InstructionSignatures::unpack(&v).unwrap();
        assert_eq!(b.0.len(), n as usize);
        assert!(Ed25519InstructionSignatures::unpack(&v[..v.len() - 1]).is_err());
    }
}

#[test]
fn bundle_embedded_entry_is_verifiable() {
    let msg: Vec<u8> = (0u8..10).collect();
    let mut data = vec![1, 0];
    data.extend_from_slice(&Ed25519InstructionOffsets::new(&msg).pack());
    data.extend((0..32).map(|i| 100 + i as u8));
    data.extend((0..64).map(|i| i as u8));
    data.extend_from_slice(&msg);
    let b = Ed25519InstructionSignatures::unpack(&data).unwrap();
    assert_eq!(b.0.len(), 1);
    let e = &b.0[0];
    assert!(e.is_verifiable);
    assert_eq!(e.public_key.as_deref(), Some(&data[16..48]));
    assert_eq!(e.signature.as_deref(), Some(&data[48..112]));
    assert_eq!(e.message.as_deref(), Some(&msg[..]));
}

#[test]
fn bundle_external_fields_are_absent() {
    let mut data = vec![2, 0];
    // first entry: public key elsewhere, signature and message embedded
    data.extend(table(30, 0xffff, 0, 3, 30, 4, 0xffff));
    // second entry: message elsewhere
    data.extend(table(30, 0xffff, 30, 0xffff, 0, 0, 5));
    data.extend(vec![9u8; 100]);
    let b = Ed25519InstructionSignatures::unpack(&data).unwrap();
    assert_eq!(b.0.len(), 2);
    assert!(!b.0[0].is_verifiable);
    assert!(b.0[0].public_key.is_none());
    assert_eq!(b.0[0].signature.as_deref(), Some(&data[30..94]));
    assert_eq!(b.0[0].message.as_deref(), Some(&data[30..34]));
    assert!(!b.0[1].is_verifiable);
    assert!(b.0[1].message.is_none());
    assert_eq!(b.0[1].public_key.as_deref(), Some(&data[30..62]));
}

#[test]
fn bundle_out_of_bounds_fields_fail() {
    let mut base = vec![1, 0];
    base.extend(table(0, 1, 0, 1, 0, 0, 1));
    base.extend(vec![0u8; 64]);
    let len = base.len() as u16;
    // public key running one byte past the end
    let mut d = vec![1, 0];
    d.extend(table(0, 1, len - 31, 0xffff, 0, 0, 1));
    d.extend(vec![0u8; 64]);
    assert_eq!(Ed25519InstructionSignatures::unpack(&d).unwrap_err(), DiceError::InvalidInstructionData);
    // signature running past the end
    let mut d = vec![1, 0];
    d.extend(table(len - 63, 0xffff, 0, 1, 0, 0, 1));
    d.extend(vec![0u8; 64]);
    assert!(Ed25519InstructionSignatures::unpack(&d).is_err());
    // message running past the end
    let mut d = vec![1, 0];
    d.extend(table(0, 1, 0, 1, len - 3, 4, 0xffff));
    d.extend(vec![0u8; 64]);
    assert!(Ed25519InstructionSignatures::unpack(&d).is_err());
    // the same message ending exactly at the end parses
    let mut d = vec![1, 0];
    d.extend(table(0, 1, 0, 1, len - 4, 4, 0xffff));
    d.extend(vec![0u8; 64]);
    assert!(Ed25519InstructionSignatures::unpack(&d).is_ok());
}
