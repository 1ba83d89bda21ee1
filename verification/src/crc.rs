//! The reflected CRC-32 (polynomial 0xedb88320) used by Bluetooth reports.
use vstd::prelude::*;

verus! {

/// One shift of the reflected CRC register.
pub open spec fn crc_bit_step(c: u32) -> u32 {
    if c & 1 != 0 {
        (c >> 1) ^ 0xedb8_8320
    } else {
        c >> 1
    }
}

/// `n` shifts of the CRC register.
pub open spec fn crc_bits(c: u32, n: nat) -> u32
    decreases n,
{
    if n == 0 {
        c
    } else {
        crc_bit_step(crc_bits(c, (n - 1) as nat))
    }
}

/// The register after one more input byte.
pub open spec fn crc_byte(c: u32, b: u8) -> u32 {
    crc_bits(c ^ (b as u32), 8)
}

/// The register after the bytes of `s`, first to last, starting from `c`.
pub open spec fn crc32_update(c: u32, s: Seq<u8>) -> u32
    decreases s.len(),
{
    if s.len() == 0 {
        c
    } else {
        crc_byte(crc32_update(c, s.drop_last()), s.last())
    }
}

/// The DualSense checksum: CRC-32 over a one-byte seed and then `data`,
/// starting from all ones and inverted at the end.
pub open spec fn ds_crc(seed: u8, data: Seq<u8>) -> u32 {
    !crc32_update(crc32_update(0xffff_ffff, seq![seed]), data)
}

/// The register is the standard reflected CRC-32 (the CRC of zlib and
/// Ethernet): one shift moves the register right by one bit and XORs in the
/// reversed polynomial 0xedb88320 exactly when the bit shifted out is set.
pub proof fn lemma_crc_shift_is_reflected_crc32(c: u32)
    ensures
        c & 1 == 0 ==> crc_bit_step(c) == c >> 1,
        c & 1 == 1 ==> crc_bit_step(c) == (c >> 1) ^ 0xedb8_8320u32,
        crc_bit_step(1) == 0xedb8_8320u32,
        crc_bit_step(0) == 0,
{
    assert(c & 1 == 0 || c & 1 == 1) by (bit_vector);
    assert((1u32 & 1) == 1 && (1u32 >> 1) == 0 && (0u32 ^ 0xedb8_8320u32) == 0xedb8_8320u32) by (bit_vector);
    assert((0u32 & 1) == 0 && (0u32 >> 1) == 0) by (bit_vector);
}

/// Feeding a byte is feeding zero after XORing the byte into the register,
/// for every register and byte.
pub proof fn lemma_crc_byte_mixes_input(c: u32, b: u8)
    ensures
        crc_byte(c, b) == crc_byte(c ^ (b as u32), 0),
{
    assert(c ^ (b as u32) ^ (0u8 as u32) == c ^ (b as u32)) by (bit_vector);
}

/// One input byte is eight shifts of the register after XORing it in.
spec fn crc_eight(c: u32) -> u32 {
    let c1 = crc_bit_step(c);
    let c2 = crc_bit_step(c1);
    let c3 = crc_bit_step(c2);
    let c4 = crc_bit_step(c3);
    let c5 = crc_bit_step(c4);
    let c6 = crc_bit_step(c5);
    let c7 = crc_bit_step(c6);
    crc_bit_step(c7)
}

proof fn lemma_crc_byte_unfold(c: u32, b: u8)
    ensures
        crc_byte(c, b) == crc_eight(c ^ (b as u32)),
{
    reveal_with_fuel(crc_bits, 9);
}

proof fn lemma_crc_byte_value(c: u32, b: u8, r: u32)
    requires
        crc_eight(c ^ (b as u32)) == r,
    ensures
        crc_byte(c, b) == r,
{
    lemma_crc_byte_unfold(c, b);
}

proof fn lemma_crc32_update_push(c: u32, s: Seq<u8>, b: u8)
    ensures
        crc32_update(c, s.push(b)) == crc_byte(crc32_update(c, s), b),
{
    assert(s.push(b).drop_last() =~= s);
}

/// The check value of CRC-32: the ASCII bytes "123456789" from the all-ones
/// register, inverted, give 0xcbf43926.
pub proof fn lemma_crc32_check_value()
    ensures
        !crc32_update(0xffff_ffff, seq![0x31u8, 0x32u8, 0x33u8, 0x34u8, 0x35u8, 0x36u8, 0x37u8, 0x38u8, 0x39u8])
            == 0xcbf4_3926u32,
{
    assert(crc_eight(0xffffffffu32 ^ 0x31u32) == 0x7c231048u32) by (bit_vector);
    assert(crc_eight(0x7c231048u32 ^ 0x32u32) == 0xb0acbb32u32) by (bit_vector);
    assert(crc_eight(0xb0acbb32u32 ^ 0x33u32) == 0x77b79c2du32) by (bit_vector);
    assert(crc_eight(0x77b79c2du32 ^ 0x34u32) == 0x641c1f5cu32) by (bit_vector);
    assert(crc_eight(0x641c1f5cu32 ^ 0x35u32) == 0x340ac5e3u32) by (bit_vector);
    assert(crc_eight(0x340ac5e3u32 ^ 0x36u32) == 0xf68d2c9eu32) by (bit_vector);
    assert(crc_eight(0xf68d2c9eu32 ^ 0x37u32) == 0xaffc9660u32) by (bit_vector);
    assert(crc_eight(0xaffc9660u32 ^ 0x38u32) == 0x651f2550u32) by (bit_vector);
    assert(crc_eight(0x651f2550u32 ^ 0x39u32) == 0x340bc6d9u32) by (bit_vector);
    lemma_crc_byte_value(0xffffffffu32, 0x31u8, 0x7c231048u32);
    lemma_crc_byte_value(0x7c231048u32, 0x32u8, 0xb0acbb32u32);
    lemma_crc_byte_value(0xb0acbb32u32, 0x33u8, 0x77b79c2du32);
    lemma_crc_byte_value(0x77b79c2du32, 0x34u8, 0x641c1f5cu32);
    lemma_crc_byte_value(0x641c1f5cu32, 0x35u8, 0x340ac5e3u32);
    lemma_crc_byte_value(0x340ac5e3u32, 0x36u8, 0xf68d2c9eu32);
    lemma_crc_byte_value(0xf68d2c9eu32, 0x37u8, 0xaffc9660u32);
    lemma_crc_byte_value(0xaffc9660u32, 0x38u8, 0x651f2550u32);
    lemma_crc_byte_value(0x651f2550u32, 0x39u8, 0x340bc6d9u32);
    let mut s: Seq<u8> = Seq::empty();
    lemma_crc32_update_push(0xffff_ffffu32, s, 0x31u8);
    s = s.push(0x31u8);
    lemma_crc32_update_push(0xffff_ffffu32, s, 0x32u8);
    s = s.push(0x32u8);
    lemma_crc32_update_push(0xffff_ffffu32, s, 0x33u8);
    s = s.push(0x33u8);
    lemma_crc32_update_push(0xffff_ffffu32, s, 0x34u8);
    s = s.push(0x34u8);
    lemma_crc32_update_push(0xffff_ffffu32, s, 0x35u8);
    s = s.push(0x35u8);
    lemma_crc32_update_push(0xffff_ffffu32, s, 0x36u8);
    s = s.push(0x36u8);
    lemma_crc32_update_push(0xffff_ffffu32, s, 0x37u8);
    s = s.push(0x37u8);
    lemma_crc32_update_push(0xffff_ffffu32, s, 0x38u8);
    s = s.push(0x38u8);
    lemma_crc32_update_push(0xffff_ffffu32, s, 0x39u8);
    s = s.push(0x39u8);
    assert(s =~= seq![0x31u8, 0x32u8, 0x33u8, 0x34u8, 0x35u8, 0x36u8, 0x37u8, 0x38u8, 0x39u8]);
    assert(!0x340b_c6d9u32 == 0xcbf4_3926u32) by (bit_vector);
}

/// The four bytes of `v`, least significant first.
pub open spec fn le_bytes_u32(v: u32) -> Seq<u8> {
    seq![
        (v % 256) as u8,
        ((v / 256) % 256) as u8,
        ((v / 65536) % 256) as u8,
        (v / 16777216) as u8,
    ]
}

/// The value of four bytes read least significant first.
pub open spec fn le_value(b: Seq<u8>) -> int {
    b[0] + 256 * b[1] + 65536 * b[2] + 16777216 * b[3]
}

/// Writing a value as four little-endian bytes and reading them back gives the value.
pub proof fn lemma_le_bytes_roundtrip(v: u32)
    ensures
        le_bytes_u32(v).len() == 4,
        le_value(le_bytes_u32(v)) == v,
{
}

/// The register after one byte.
pub fn crc32_byte(crc: u32, byte: u8) -> (r: u32)
    ensures
        r == crc_byte(crc, byte),
{
    let mut c = crc ^ (byte as u32);
    let ghost start = c;
    let mut k: u32 = 0;
    while k < 8
        invariant
            k <= 8,
            start == crc ^ (byte as u32),
            c == crc_bits(start, k as nat),
        decreases 8 - k,
    {
        c = if c & 1 != 0 {
            (c >> 1) ^ 0xedb8_8320
        } else {
            c >> 1
        };
        k = k + 1;
    }
    c
}

/// The register after the first `len` bytes of `bytes`.
pub fn crc32_le_prefix(crc: u32, bytes: &[u8], len: usize) -> (r: u32)
    requires
        len <= bytes@.len(),
    ensures
        r == crc32_update(crc, bytes@.subrange(0, len as int)),
{
    let mut c = crc;
    let mut i: usize = 0;
    while i < len
        invariant
            i <= len,
            len <= bytes@.len(),
            c == crc32_update(crc, bytes@.subrange(0, i as int)),
        decreases len - i,
    {
        assert(bytes@.subrange(0, i + 1).drop_last() =~= bytes@.subrange(0, i as int));
        c = crc32_byte(c, bytes[i]);
        i = i + 1;
    }
    c
}

/// The register after every byte of `bytes`.
pub fn crc32_le(crc: u32, bytes: &[u8]) -> (r: u32)
    ensures
        r == crc32_update(crc, bytes@),
{
    let r = crc32_le_prefix(crc, bytes, bytes.len());
    assert(bytes@.subrange(0, bytes@.len() as int) =~= bytes@);
    r
}

/// The DualSense checksum of the first `len` bytes of `bytes`.
pub fn ds_crc_prefix(seed: u8, bytes: &[u8], len: usize) -> (r: u32)
    requires
        len <= bytes@.len(),
    ensures
        r == ds_crc(seed, bytes@.subrange(0, len as int)),
{
    let c = crc32_byte(0xffff_ffff, seed);
    assert(seq![seed].drop_last() =~= Seq::<u8>::empty());
    assert(crc32_update(0xffff_ffff, seq![seed]) == c) by {
        reveal_with_fuel(crc32_update, 2);
    }
    !crc32_le_prefix(c, bytes, len)
}

/// The four bytes of `v`, least significant first.
pub fn u32_le_bytes(v: u32) -> (r: [u8; 4])
    ensures
        r@ == le_bytes_u32(v),
{
    let r = [(v % 256) as u8, ((v / 256) % 256) as u8, ((v / 65536) % 256) as u8, (v / 16777216) as u8];
    assert(r@ =~= le_bytes_u32(v));
    r
}

/// Reads four bytes at `offset`, least significant first.
pub fn read_u32_at(bytes: &[u8], offset: usize) -> (r: u32)
    requires
        offset + 4 <= bytes@.len(),
    ensures
        r as int == le_value(bytes@.subrange(offset as int, offset + 4)),
{
    bytes[offset] as u32 + 256 * (bytes[offset + 1] as u32) + 65536 * (bytes[offset + 2] as u32)
        + 16777216 * (bytes[offset + 3] as u32)
}

} // verus!
