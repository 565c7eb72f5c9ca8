//! Bit- and word-level views of the Modbus wire format: coils packed eight to
//! a byte (least significant bit first) and 16-bit registers serialized as
//! big-endian byte pairs. The packing itself is done by `modbus::binary`;
//! the wrappers here state exactly what those routines return.
use vstd::prelude::*;

verus! {

/// Bit `i` of byte `b`, counting from the least significant bit.
pub open spec fn bit_get(b: u8, i: u8) -> bool {
    (b >> i) & 1 == 1
}

/// `bytes` is the packed form of the coil sequence `bits`: one bit per coil,
/// least significant bit first within each byte, trailing pad bits zero.
pub open spec fn packs(bits: Seq<bool>, bytes: Seq<u8>) -> bool {
    &&& bytes.len() == (bits.len() + 7) / 8
    &&& forall|i: int, j: u8|
        0 <= i && j < 8 && 8 * i + j < bits.len() ==> #[trigger] bit_get(bytes[i], j) == bits[8 * i
            + j]
    &&& forall|i: int, j: u8|
        0 <= i < bytes.len() && j < 8 && 8 * i + j >= bits.len() ==> !(#[trigger] bit_get(
            bytes[i],
            j,
        ))
}

/// The first `count` bits of `bytes`, read least significant bit first.
pub open spec fn unpacked_bits(bytes: Seq<u8>, count: nat) -> Seq<bool> {
    Seq::new(count, |k: int| bit_get(bytes[k / 8], (k % 8) as u8))
}

/// High byte of a 16-bit word.
pub open spec fn word_hi(w: u16) -> u8 {
    (w / 256) as u8
}

/// Low byte of a 16-bit word.
pub open spec fn word_lo(w: u16) -> u8 {
    (w % 256) as u8
}

/// The 16-bit word with high byte `hi` and low byte `lo`.
pub open spec fn word_of(hi: u8, lo: u8) -> u16 {
    (256 * hi + lo) as u16
}

/// Big-endian serialization of a word sequence: high byte before low byte.
pub open spec fn words_to_bytes(words: Seq<u16>) -> Seq<u8> {
    Seq::new(
        2 * words.len(),
        |i: int| if i % 2 == 0 { word_hi(words[i / 2]) } else { word_lo(words[i / 2]) },
    )
}

/// Big-endian deserialization: consecutive byte pairs become words.
pub open spec fn bytes_to_words(bytes: Seq<u8>) -> Seq<u16> {
    Seq::new(bytes.len() / 2, |i: int| word_of(bytes[2 * i], bytes[2 * i + 1]))
}

/// Relies on `modbus::binary::pack_bits`: coil `k` is stored at bit `k % 8`
/// (least significant first) of byte `k / 8`, the result has `ceil(n / 8)`
/// bytes, and pad bits beyond the last coil stay zero.
#[verifier::external_body]
pub fn pack_bits(bits: &[bool]) -> (r: Vec<u8>)
    ensures
        packs(bits@, r@),
{
    let coils: Vec<modbus::Coil> = bits.iter().map(
        |b| if *b {
            modbus::Coil::On
        } else {
            modbus::Coil::Off
        },
    ).collect();
    modbus::binary::pack_bits(&coils)
}

/// Relies on `modbus::binary::unpack_bits`: coil `k` is read from bit `k % 8`
/// (least significant first) of byte `k / 8`; it indexes byte `(count - 1) / 8`,
/// which the precondition keeps in bounds.
#[verifier::external_body]
pub fn unpack_bits(bytes: &[u8], count: u16) -> (r: Vec<bool>)
    requires
        count <= 8 * bytes@.len(),
    ensures
        r@ == unpacked_bits(bytes@, count as nat),
{
    let coils = modbus::binary::unpack_bits(bytes, count);
    coils.into_iter().map(
        |c| match c {
            modbus::Coil::On => true,
            modbus::Coil::Off => false,
        },
    ).collect()
}

/// Relies on `modbus::binary::pack_bytes`: consecutive byte pairs become
/// big-endian words; it rejects an odd byte count, which the precondition
/// rules out, so the call always succeeds.
#[verifier::external_body]
pub fn pack_bytes(bytes: &[u8]) -> (r: Vec<u16>)
    requires
        bytes@.len() % 2 == 0,
    ensures
        r@ == bytes_to_words(bytes@),
{
    modbus::binary::pack_bytes(bytes).unwrap()
}

/// Relies on `modbus::binary::unpack_bytes`: each word becomes two bytes,
/// high byte first.
#[verifier::external_body]
pub fn unpack_bytes(words: &[u16]) -> (r: Vec<u8>)
    ensures
        r@ == words_to_bytes(words@),
{
    modbus::binary::unpack_bytes(words)
}

/// Read the big-endian word made of two bytes.
pub fn word_from(hi: u8, lo: u8) -> (r: u16)
    ensures
        r == word_of(hi, lo),
{
    256 * (hi as u16) + (lo as u16)
}

/// Append a word to a byte buffer, high byte first.
pub fn push_word(buf: &mut Vec<u8>, w: u16)
    ensures
        final(buf)@ == old(buf)@ + seq![word_hi(w), word_lo(w)],
{
    buf.push((w / 256) as u8);
    buf.push((w % 256) as u8);
    assert(buf@ =~= old(buf)@ + seq![word_hi(w), word_lo(w)]);
}

/// Splitting a word into bytes and reassembling them gives the word back.
pub proof fn lemma_word_roundtrip(w: u16)
    ensures
        word_of(word_hi(w), word_lo(w)) == w,
{
}

/// A byte with all eight bits clear is zero.
proof fn lemma_zero_byte(b: u8)
    by (bit_vector)
    requires
        !((b >> 0u8) & 1 == 1),
        !((b >> 1u8) & 1 == 1),
        !((b >> 2u8) & 1 == 1),
        !((b >> 3u8) & 1 == 1),
        !((b >> 4u8) & 1 == 1),
        !((b >> 5u8) & 1 == 1),
        !((b >> 6u8) & 1 == 1),
        !((b >> 7u8) & 1 == 1),
    ensures
        b == 0,
{
}

/// Packing coils that are all off yields bytes that are all zero.
pub proof fn lemma_pack_all_false(bits: Seq<bool>, bytes: Seq<u8>)
    requires
        packs(bits, bytes),
        forall|k: int| 0 <= k < bits.len() ==> !bits[k],
    ensures
        forall|i: int| 0 <= i < bytes.len() ==> bytes[i] == 0,
{
    assert forall|i: int| 0 <= i < bytes.len() implies bytes[i] == 0 by {
        assert forall|j: u8| j < 8 implies !bit_get(bytes[i], j) by {
            if 8 * i + j < bits.len() {
                assert(bit_get(bytes[i], j) == bits[8 * i + j]);
            }
        }
        assert(!bit_get(bytes[i], 0) && !bit_get(bytes[i], 1) && !bit_get(bytes[i], 2) && !bit_get(
            bytes[i],
            3,
        ) && !bit_get(bytes[i], 4) && !bit_get(bytes[i], 5) && !bit_get(bytes[i], 6) && !bit_get(
            bytes[i],
            7,
        ));
        lemma_zero_byte(bytes[i]);
    }
}

/// Unpacking as many bits as were packed reproduces the coils exactly.
pub proof fn lemma_pack_unpack_roundtrip(bits: Seq<bool>, bytes: Seq<u8>)
    requires
        packs(bits, bytes),
    ensures
        unpacked_bits(bytes, bits.len()) == bits,
{
    let u = unpacked_bits(bytes, bits.len());
    assert forall|k: int| 0 <= k < bits.len() implies u[k] == bits[k] by {
        let i = k / 8;
        let j = (k % 8) as u8;
        assert(8 * i + j == k);
        assert(bit_get(bytes[i], j) == bits[k]);
    }
    assert(u =~= bits);
}

} // verus!
