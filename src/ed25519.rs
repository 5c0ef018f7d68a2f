use vstd::prelude::*;
use vstd::slice::{slice_subrange, slice_to_vec};
use crate::error::DiceError;

verus! {

/// Size in bytes of a serialized public key.
pub const PUBKEY_SERIALIZED_SIZE: usize = 32;

/// Size in bytes of a serialized signature.
pub const SIGNATURE_SERIALIZED_SIZE: usize = 64;

/// Size in bytes of one serialized offset table.
pub const SIGNATURE_OFFSETS_SERIALIZED_SIZE: usize = 14;

/// Where the first offset table starts, after the count byte and a padding byte.
pub const SIGNATURE_OFFSETS_START: usize = 2;

/// Instruction index meaning "the data lives in this same instruction".
pub const EMBEDDED: u16 = 0xffff;

/// Where, inside an ed25519 instruction, one signature / public key / message
/// triple is to be found.
#[derive(Clone, Copy, Debug, PartialEq, Eq, Structural)]
pub struct Ed25519InstructionOffsets {
    pub signature_offset: u16,
    pub signature_instruction_index: u16,
    pub public_key_offset: u16,
    pub public_key_instruction_index: u16,
    pub message_data_offset: u16,
    pub message_data_size: u16,
    pub message_instruction_index: u16,
}

/// The two little-endian bytes of a 16-bit value.
pub open spec fn le16_bytes(x: u16) -> Seq<u8> {
    seq![(x % 256) as u8, (x / 256) as u8]
}

/// The 16-bit value held little-endian at `b[i]`, `b[i + 1]`.
pub open spec fn le16_at(b: Seq<u8>, i: int) -> u16 {
    (b[i] as int + 256 * (b[i + 1] as int)) as u16
}

/// The offset table that 14 bytes encode, seven little-endian fields in order.
pub open spec fn offsets_from_bytes(b: Seq<u8>) -> Ed25519InstructionOffsets {
    Ed25519InstructionOffsets {
        signature_offset: le16_at(b, 0),
        signature_instruction_index: le16_at(b, 2),
        public_key_offset: le16_at(b, 4),
        public_key_instruction_index: le16_at(b, 6),
        message_data_offset: le16_at(b, 8),
        message_data_size: le16_at(b, 10),
        message_instruction_index: le16_at(b, 12),
    }
}

/// The bytes that `pack` writes: the offsets and sizes of `t`, with every
/// instruction index written as the embedded marker.
pub open spec fn packed(t: Ed25519InstructionOffsets) -> Seq<u8> {
    le16_bytes(t.signature_offset) + le16_bytes(EMBEDDED) + le16_bytes(t.public_key_offset)
        + le16_bytes(EMBEDDED) + le16_bytes(t.message_data_offset) + le16_bytes(
        t.message_data_size,
    ) + le16_bytes(EMBEDDED)
}

/// The table of the canonical layout for a message of `size` bytes:
/// public key at 16, signature at 48, message at 112, all embedded.
pub open spec fn canonical_offsets(size: u16) -> Ed25519InstructionOffsets {
    Ed25519InstructionOffsets {
        signature_offset: 48,
        signature_instruction_index: EMBEDDED,
        public_key_offset: 16,
        public_key_instruction_index: EMBEDDED,
        message_data_offset: 112,
        message_data_size: size,
        message_instruction_index: EMBEDDED,
    }
}

/// The data of an instruction in the canonical layout: one signature, its
/// table, then the public key, the signature and the message.
pub open spec fn canonical_data(public_key: Seq<u8>, signature: Seq<u8>, message: Seq<u8>) -> Seq<u8> {
    seq![1u8, 0u8] + packed(canonical_offsets(message.len() as u16)) + public_key + signature
        + message
}

/// Whether all three fields of `t` are marked as embedded in the same instruction.
pub open spec fn all_embedded(t: Ed25519InstructionOffsets) -> bool {
    &&& t.signature_instruction_index == EMBEDDED
    &&& t.public_key_instruction_index == EMBEDDED
    &&& t.message_instruction_index == EMBEDDED
}

fn le16_read(b: &[u8], i: usize) -> (r: u16)
    requires
        i + 1 < b@.len(),
    ensures
        r == le16_at(b@, i as int),
{
    let lo = b[i] as u16;
    let hi = b[i + 1] as u16;
    lo + 256 * hi
}

impl Ed25519InstructionOffsets {
    /// The canonical layout for a single signature over `message`: public key
    /// at 16, signature at 48, message at 112, all embedded.
    pub fn new(message: &[u8]) -> (r: Self)
        requires
            message@.len() <= u16::MAX,
        ensures
            r == canonical_offsets(message@.len() as u16),
    {
        Ed25519InstructionOffsets {
            signature_offset: 48,
            signature_instruction_index: EMBEDDED,
            public_key_offset: 16,
            public_key_instruction_index: EMBEDDED,
            message_data_offset: 112,
            message_data_size: message.len() as u16,
            message_instruction_index: EMBEDDED,
        }
    }

    /// The 14-byte encoding; the instruction indices are always written as the
    /// embedded marker.
    pub fn pack(&self) -> (r: [u8; 14])
        ensures
            r@ == packed(*self),
    {
        let mut s = [0u8; 14];
        s[0] = (self.signature_offset % 256) as u8;
        s[1] = (self.signature_offset / 256) as u8;
        s[2] = 0xff;
        s[3] = 0xff;
        s[4] = (self.public_key_offset % 256) as u8;
        s[5] = (self.public_key_offset / 256) as u8;
        s[6] = 0xff;
        s[7] = 0xff;
        s[8] = (self.message_data_offset % 256) as u8;
        s[9] = (self.message_data_offset / 256) as u8;
        s[10] = (self.message_data_size % 256) as u8;
        s[11] = (self.message_data_size / 256) as u8;
        s[12] = 0xff;
        s[13] = 0xff;
        assert(s@ =~= packed(*self));
        s
    }

    /// Decodes an offset table; anything but exactly 14 bytes is malformed.
    pub fn unpack(b: &[u8]) -> (r: Result<Self, DiceError>)
        ensures
            b@.len() == 14 ==> r == Ok::<Self, DiceError>(offsets_from_bytes(b@)),
            b@.len() != 14 ==> r == Err::<Self, DiceError>(
                DiceError::InvalidInstructionData,
            ),
    {
        if b.len() != 14 {
            return Err(DiceError::InvalidInstructionData);
        }
        Ok(Ed25519InstructionOffsets {
            signature_offset: le16_read(b, 0),
            signature_instruction_index: le16_read(b, 2),
            public_key_offset: le16_read(b, 4),
            public_key_instruction_index: le16_read(b, 6),
            message_data_offset: le16_read(b, 8),
            message_data_size: le16_read(b, 10),
            message_instruction_index: le16_read(b, 12),
        })
    }
}

/// Where one field of a signature entry is to be read.
#[derive(Clone, Copy, Debug, PartialEq, Eq, Structural)]
pub enum FieldLocation {
    /// In this instruction's data, `len` bytes from `offset`.
    Embedded { offset: usize, len: usize },
    /// In another instruction, which this parser does not resolve.
    External,
}

/// The location named by an instruction index, an offset and a length.
pub open spec fn location_of(index: u16, offset: u16, len: usize) -> FieldLocation {
    if index == EMBEDDED {
        FieldLocation::Embedded { offset: offset as usize, len }
    } else {
        FieldLocation::External
    }
}

/// What a location yields in `data`: `None` when an embedded field runs past
/// the end (malformed), `Some(None)` for an external field, else the bytes.
pub open spec fn resolve(data: Seq<u8>, loc: FieldLocation) -> Option<Option<Seq<u8>>> {
    match loc {
        FieldLocation::Embedded { offset, len } => {
            if offset + len <= data.len() {
                Some(Some(data.subrange(offset as int, offset + len)))
            } else {
                None
            }
        },
        FieldLocation::External => Some(None),
    }
}

/// The model of one parsed signature entry.
pub ghost struct SignatureModel {
    pub is_verifiable: bool,
    pub offsets: Ed25519InstructionOffsets,
    pub public_key: Option<Seq<u8>>,
    pub signature: Option<Seq<u8>>,
    pub message: Option<Seq<u8>>,
}

/// One signature entry of an ed25519 instruction, its fields resolved.
#[derive(Clone, Debug)]
pub struct Ed25519InstructionSignature {
    pub is_verifiable: bool,
    pub offsets: Ed25519InstructionOffsets,
    pub public_key: Option<Vec<u8>>,
    pub signature: Option<Vec<u8>>,
    pub message: Option<Vec<u8>>,
}

/// The bytes an optional buffer holds.
pub open spec fn bytes_of(o: Option<Vec<u8>>) -> Option<Seq<u8>> {
    match o {
        Some(v) => Some(v@),
        None => None,
    }
}

impl View for Ed25519InstructionSignature {
    type V = SignatureModel;

    open spec fn view(&self) -> SignatureModel {
        SignatureModel {
            is_verifiable: self.is_verifiable,
            offsets: self.offsets,
            public_key: bytes_of(self.public_key),
            signature: bytes_of(self.signature),
            message: bytes_of(self.message),
        }
    }
}

/// The offset table of entry `i` of `data`.
pub open spec fn table_at(data: Seq<u8>, i: int) -> Ed25519InstructionOffsets {
    offsets_from_bytes(data.subrange(2 + 14 * i, 16 + 14 * i))
}

/// Entry `i` of `data`, or `None` when one of its embedded fields runs past
/// the end of `data`.
pub open spec fn entry_at(data: Seq<u8>, i: int) -> Option<SignatureModel> {
    let t = table_at(data, i);
    let pk = resolve(data, location_of(t.public_key_instruction_index, t.public_key_offset, 32));
    let sig = resolve(data, location_of(t.signature_instruction_index, t.signature_offset, 64));
    let msg = resolve(
        data,
        location_of(t.message_instruction_index, t.message_data_offset, t.message_data_size as usize),
    );
    if pk is None || sig is None || msg is None {
        None
    } else {
        Some(
            SignatureModel {
                is_verifiable: all_embedded(t),
                offsets: t,
                public_key: pk->Some_0,
                signature: sig->Some_0,
                message: msg->Some_0,
            },
        )
    }
}

/// Whether the header of `data` is well formed: a count byte and a padding
/// byte, no trailing bytes after a zero count, and room for every table.
pub open spec fn header_ok(data: Seq<u8>) -> bool {
    &&& data.len() >= 2
    &&& !(data[0] == 0 && data.len() > 2)
    &&& data.len() >= 2 + 14 * data[0]
}

/// The entries that `data` encodes, or `None` when it is malformed.
pub open spec fn bundle_of(data: Seq<u8>) -> Option<Seq<SignatureModel>> {
    if header_ok(data) && forall|i: int| 0 <= i < data[0] ==> (#[trigger] entry_at(data, i)) is Some {
        Some(Seq::new(data[0] as nat, |i: int| entry_at(data, i)->Some_0))
    } else {
        None
    }
}

/// The location of a field, from its instruction index, offset and length.
pub fn locate(index: u16, offset: u16, len: usize) -> (r: FieldLocation)
    ensures
        r == location_of(index, offset, len),
{
    if index == EMBEDDED {
        FieldLocation::Embedded { offset: offset as usize, len }
    } else {
        FieldLocation::External
    }
}

/// Reads the field at `loc` out of `data`; an embedded field that runs past
/// the end is malformed data.
pub fn resolve_field(data: &[u8], loc: FieldLocation) -> (r: Result<Option<Vec<u8>>, DiceError>)
    requires
        loc matches FieldLocation::Embedded { offset, len } ==> offset <= u16::MAX && len
            <= u16::MAX,
    ensures
        match resolve(data@, loc) {
            Some(o) => r is Ok && bytes_of(r->Ok_0) == o,
            None => r == Err::<Option<Vec<u8>>, DiceError>(DiceError::InvalidInstructionData),
        },
{
    match loc {
        FieldLocation::Embedded { offset, len } => {
            if offset + len <= data.len() {
                let v = slice_to_vec(slice_subrange(data, offset, offset + len));
                Ok(Some(v))
            } else {
                Err(DiceError::InvalidInstructionData)
            }
        },
        FieldLocation::External => Ok(None),
    }
}

/// The signature entries of an ed25519 instruction, in order.
#[derive(Clone, Debug)]
pub struct Ed25519InstructionSignatures(pub Vec<Ed25519InstructionSignature>);

impl View for Ed25519InstructionSignatures {
    type V = Seq<SignatureModel>;

    open spec fn view(&self) -> Seq<SignatureModel> {
        self.0@.map_values(|e: Ed25519InstructionSignature| e@)
    }
}

/// Decodes entry `i` of `data`.
fn unpack_entry(data: &[u8], i: usize) -> (r: Result<Ed25519InstructionSignature, DiceError>)
    requires
        i < 256,
        16 + 14 * i <= data@.len(),
    ensures
        match entry_at(data@, i as int) {
            Some(e) => r is Ok && r->Ok_0@ == e,
            None => r == Err::<Ed25519InstructionSignature, DiceError>(
                DiceError::InvalidInstructionData,
            ),
        },
{
    let start = SIGNATURE_OFFSETS_START + i * SIGNATURE_OFFSETS_SERIALIZED_SIZE;
    let end = start + SIGNATURE_OFFSETS_SERIALIZED_SIZE;
    let offsets = Ed25519InstructionOffsets::unpack(slice_subrange(data, start, end))?;
    assert(offsets == table_at(data@, i as int));
    let public_key = resolve_field(
        data,
        locate(offsets.public_key_instruction_index, offsets.public_key_offset, PUBKEY_SERIALIZED_SIZE),
    )?;
    let signature = resolve_field(
        data,
        locate(offsets.signature_instruction_index, offsets.signature_offset, SIGNATURE_SERIALIZED_SIZE),
    )?;
    let message = resolve_field(
        data,
        locate(
            offsets.message_instruction_index,
            offsets.message_data_offset,
            offsets.message_data_size as usize,
        ),
    )?;
    let is_verifiable = offsets.public_key_instruction_index == EMBEDDED
        && offsets.signature_instruction_index == EMBEDDED && offsets.message_instruction_index
        == EMBEDDED;
    Ok(Ed25519InstructionSignature { is_verifiable, offsets, public_key, signature, message })
}

impl Ed25519InstructionSignatures {
    /// Parses the data of an ed25519 instruction: a count byte, a padding
    /// byte, one 14-byte offset table per signature, then the payload that the
    /// tables point into.
    pub fn unpack(data: &[u8]) -> (r: Result<Self, DiceError>)
        ensures
            match bundle_of(data@) {
                Some(b) => r is Ok && r->Ok_0@ == b,
                None => r == Err::<Self, DiceError>(DiceError::InvalidInstructionData),
            },
    {
        if data.len() < SIGNATURE_OFFSETS_START {
            return Err(DiceError::InvalidInstructionData);
        }
        let num_signatures = data[0] as usize;
        if num_signatures == 0 && data.len() > SIGNATURE_OFFSETS_START {
            return Err(DiceError::InvalidInstructionData);
        }
        let expected_data_size = num_signatures * SIGNATURE_OFFSETS_SERIALIZED_SIZE
            + SIGNATURE_OFFSETS_START;
        if data.len() < expected_data_size {
            return Err(DiceError::InvalidInstructionData);
        }
        assert(header_ok(data@));
        let mut signatures: Vec<Ed25519InstructionSignature> = Vec::new();
        let mut i: usize = 0;
        while i < num_signatures
            invariant
                header_ok(data@),
                num_signatures == data@[0],
                i <= num_signatures,
                signatures@.len() == i,
                forall|j: int|
                    0 <= j < i ==> (#[trigger] entry_at(data@, j)) is Some
                        && signatures@[j]@ == entry_at(data@, j)->Some_0,
            decreases num_signatures - i,
        {
            match unpack_entry(data, i) {
                Ok(e) => {
                    signatures.push(e);
                },
                Err(err) => {
                    assert(bundle_of(data@) is None);
                    return Err(err);
                },
            }
            i = i + 1;
        }
        let r = Ed25519InstructionSignatures(signatures);
        assert(r@ =~= Seq::new(data@[0] as nat, |j: int| entry_at(data@, j)->Some_0));
        Ok(r)
    }
}

/// Whether the field at `loc` lies within `len` bytes of data.
pub open spec fn fits(loc: FieldLocation, len: nat) -> bool {
    match loc {
        FieldLocation::Embedded { offset, len: n } => offset + n <= len,
        FieldLocation::External => true,
    }
}

/// A buffer shorter than two bytes is malformed.
pub proof fn lemma_short_buffer_rejected(data: Seq<u8>)
    requires
        data.len() < 2,
    ensures
        bundle_of(data) is None,
{
}

/// A zero count parses to no entries when the buffer is exactly the two
/// header bytes, and is malformed when any byte follows.
pub proof fn lemma_zero_count(data: Seq<u8>)
    requires
        data.len() >= 2,
        data[0] == 0,
    ensures
        data.len() == 2 ==> bundle_of(data) == Some(Seq::<SignatureModel>::empty()),
        data.len() > 2 ==> bundle_of(data) is None,
{
    if data.len() == 2 {
        assert(Seq::new(0, |i: int| entry_at(data, i)->Some_0) =~= Seq::<SignatureModel>::empty());
    }
}

/// With a count of `n`, a buffer one byte short of `2 + 14 * n` is malformed,
/// and one of exactly that length parses when every entry's embedded fields
/// lie within it.
pub proof fn lemma_exact_length(data: Seq<u8>)
    requires
        data.len() >= 1,
    ensures
        data.len() + 1 == 2 + 14 * data[0] ==> bundle_of(data) is None,
        (data.len() == 2 + 14 * data[0] && forall|i: int|
            0 <= i < data[0] ==> (#[trigger] entry_at(data, i)) is Some) ==> bundle_of(data) is Some,
{
}

/// An entry whose three fields are embedded and lie within the buffer is
/// verifiable and holds exactly the bytes its table points at.
pub proof fn lemma_embedded_entry(data: Seq<u8>, i: int)
    requires
        header_ok(data),
        0 <= i < data[0],
        all_embedded(table_at(data, i)),
        table_at(data, i).public_key_offset + 32 <= data.len(),
        table_at(data, i).signature_offset + 64 <= data.len(),
        table_at(data, i).message_data_offset + table_at(data, i).message_data_size <= data.len(),
    ensures
        ({
            let t = table_at(data, i);
            entry_at(data, i) == Some(
                SignatureModel {
                    is_verifiable: true,
                    offsets: t,
                    public_key: Some(
                        data.subrange(t.public_key_offset as int, t.public_key_offset + 32),
                    ),
                    signature: Some(
                        data.subrange(t.signature_offset as int, t.signature_offset + 64),
                    ),
                    message: Some(
                        data.subrange(
                            t.message_data_offset as int,
                            t.message_data_offset + t.message_data_size,
                        ),
                    ),
                },
            )
        }),
{
}

/// A field held in another instruction leaves the entry unverifiable and that
/// field absent, and never makes the buffer malformed: the entry parses
/// exactly when its embedded fields lie within the buffer, so its siblings
/// are parsed as well.
pub proof fn lemma_external_field(data: Seq<u8>, i: int)
    requires
        header_ok(data),
        0 <= i < data[0],
        !all_embedded(table_at(data, i)),
    ensures
        ({
            let t = table_at(data, i);
            let pk = location_of(t.public_key_instruction_index, t.public_key_offset, 32);
            let sig = location_of(t.signature_instruction_index, t.signature_offset, 64);
            let msg = location_of(
                t.message_instruction_index,
                t.message_data_offset,
                t.message_data_size as usize,
            );
            &&& entry_at(data, i) is Some <==> (fits(pk, data.len()) && fits(sig, data.len())
                && fits(msg, data.len()))
            &&& entry_at(data, i) matches Some(e) ==> {
                &&& !e.is_verifiable
                &&& t.public_key_instruction_index != EMBEDDED ==> e.public_key is None
                &&& t.signature_instruction_index != EMBEDDED ==> e.signature is None
                &&& t.message_instruction_index != EMBEDDED ==> e.message is None
            }
        }),
{
}

/// Data in the canonical layout parses to one verifiable entry holding
/// exactly the public key, signature and message it was built from.
pub proof fn lemma_canonical_layout(public_key: Seq<u8>, signature: Seq<u8>, message: Seq<u8>)
    requires
        public_key.len() == 32,
        signature.len() == 64,
        message.len() <= u16::MAX,
    ensures
        bundle_of(canonical_data(public_key, signature, message)) == Some(
            seq![
                SignatureModel {
                    is_verifiable: true,
                    offsets: canonical_offsets(message.len() as u16),
                    public_key: Some(public_key),
                    signature: Some(signature),
                    message: Some(message),
                },
            ],
        ),
{
    let t = canonical_offsets(message.len() as u16);
    let data = canonical_data(public_key, signature, message);
    let e = SignatureModel {
        is_verifiable: true,
        offsets: t,
        public_key: Some(public_key),
        signature: Some(signature),
        message: Some(message),
    };
    lemma_pack_unpack(t);
    assert(data.len() == 112 + message.len());
    assert(data[0] == 1);
    assert(data.subrange(2, 16) =~= packed(t));
    assert(table_at(data, 0) == t);
    assert(header_ok(data));
    assert(data.subrange(16, 48) =~= public_key);
    assert(data.subrange(48, 112) =~= signature);
    assert(data.subrange(112, 112 + message.len() as int) =~= message);
    assert(resolve(data, location_of(EMBEDDED, 16, 32)) == Some(Some(public_key)));
    assert(resolve(data, location_of(EMBEDDED, 48, 64)) == Some(Some(signature)));
    assert(resolve(data, location_of(EMBEDDED, 112, message.len() as u16 as usize)) == Some(
        Some(message),
    ));
    assert(entry_at(data, 0) == Some(e));
    assert forall|i: int| 0 <= i < data[0] implies (#[trigger] entry_at(data, i)) is Some by {
        assert(i == 0);
    }
    assert(Seq::new(data[0] as nat, |i: int| entry_at(data, i)->Some_0) =~= seq![e]);
}

/// Packing a table whose fields are all embedded and unpacking the bytes gives
/// the table back.
pub proof fn lemma_pack_unpack(t: Ed25519InstructionOffsets)
    requires
        all_embedded(t),
    ensures
        packed(t).len() == 14,
        offsets_from_bytes(packed(t)) == t,
{
    let b = packed(t);
    assert forall|x: u16| #[trigger] le16_at(le16_bytes(x), 0) == x by {
        let s = le16_bytes(x);
        assert(s[0] as int + 256 * (s[1] as int) == x) by (nonlinear_arith)
            requires s[0] as int == x % 256, s[1] as int == x / 256, 0 <= x;
    }
    assert(le16_at(b, 0) == le16_at(le16_bytes(t.signature_offset), 0));
    assert(le16_at(b, 2) == le16_at(le16_bytes(EMBEDDED), 0));
    assert(le16_at(b, 4) == le16_at(le16_bytes(t.public_key_offset), 0));
    assert(le16_at(b, 6) == le16_at(le16_bytes(EMBEDDED), 0));
    assert(le16_at(b, 8) == le16_at(le16_bytes(t.message_data_offset), 0));
    assert(le16_at(b, 10) == le16_at(le16_bytes(t.message_data_size), 0));
    assert(le16_at(b, 12) == le16_at(le16_bytes(EMBEDDED), 0));
}

} // verus!
