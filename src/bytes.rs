use vstd::prelude::*;

verus! {

/// The 16-bit little-endian value held in bytes `i..i+2` of `s`.
pub open spec fn le16_at(s: Seq<u8>, i: int) -> int {
    s[i] as int + s[i + 1] as int * 0x100
}

/// The 32-bit little-endian value held in bytes `i..i+4` of `s`.
pub open spec fn le32_at(s: Seq<u8>, i: int) -> int {
    s[i] as int + s[i + 1] as int * 0x100 + s[i + 2] as int * 0x10000 + s[i + 3] as int
        * 0x1000000
}

/// Reads the little-endian 16-bit value at `i`.
pub fn le16(d: &[u8], i: usize) -> (r: u16)
    requires
        i + 2 <= d@.len(),
    ensures
        r as int == le16_at(d@, i as int),
{
    let b0 = d[i] as u16;
    let b1 = d[i + 1] as u16;
    let r = b0 | (b1 << 8u16);
    assert(r as int == b0 + b1 * 0x100) by (bit_vector)
        requires
            b0 < 256 && b1 < 256,
            r == b0 | (b1 << 8u16),
    ;
    r
}

/// Reads the little-endian 32-bit value at `i`.
pub fn le32(d: &[u8], i: usize) -> (r: u32)
    requires
        i + 4 <= d@.len(),
    ensures
        r as int == le32_at(d@, i as int),
{
    let b0 = d[i] as u32;
    let b1 = d[i + 1] as u32;
    let b2 = d[i + 2] as u32;
    let b3 = d[i + 3] as u32;
    let r = b0 | (b1 << 8u32) | (b2 << 16u32) | (b3 << 24u32);
    assert(r as int == b0 + b1 * 0x100 + b2 * 0x10000 + b3 * 0x1000000) by (bit_vector)
        requires
            b0 < 256 && b1 < 256 && b2 < 256 && b3 < 256,
            r == b0 | (b1 << 8u32) | (b2 << 16u32) | (b3 << 24u32),
    ;
    r
}

/// The four little-endian bytes of `v`.
pub open spec fn le32_seq(v: u32) -> Seq<u8> {
    seq![
        (v % 0x100) as u8,
        ((v / 0x100) % 0x100) as u8,
        ((v / 0x10000) % 0x100) as u8,
        (v / 0x1000000) as u8,
    ]
}

/// Reading back the little-endian bytes of a word gives the word.
pub proof fn lemma_le32_round_trip(v: u32)
    ensures
        le32_at(le32_seq(v), 0) == v as int,
{
    let x = v as int;
    assert(x == x % 0x100 + ((x / 0x100) % 0x100) * 0x100 + ((x / 0x10000) % 0x100) * 0x10000 + (x
        / 0x1000000) * 0x1000000) by (nonlinear_arith)
        requires
            0 <= x < 0x1_0000_0000,
    ;
}

/// Splits `v` into its four little-endian bytes.
pub fn le32_bytes(v: u32) -> (r: (u8, u8, u8, u8))
    ensures
        seq![r.0, r.1, r.2, r.3] == le32_seq(v),
        le32_at(seq![r.0, r.1, r.2, r.3], 0) == v as int,
{
    let b0 = (v & 0xFF) as u8;
    let b1 = ((v >> 8u32) & 0xFF) as u8;
    let b2 = ((v >> 16u32) & 0xFF) as u8;
    let b3 = (v >> 24u32) as u8;
    assert(b0 == (v % 0x100) as u8 && b1 == ((v / 0x100) % 0x100) as u8 && b2 == ((v / 0x10000)
        % 0x100) as u8 && b3 == (v / 0x1000000) as u8) by (bit_vector)
        requires
            b0 == (v & 0xFF) as u8,
            b1 == ((v >> 8u32) & 0xFF) as u8,
            b2 == ((v >> 16u32) & 0xFF) as u8,
            b3 == (v >> 24u32) as u8,
    ;
    assert(seq![b0, b1, b2, b3] =~= le32_seq(v));
    proof {
        lemma_le32_round_trip(v);
    }
    (b0, b1, b2, b3)
}

} // verus!
