use vstd::prelude::*;

verus! {

/// One shift of the CCITT register: shift left, folding in the polynomial
/// when the top bit falls out.
pub open spec fn crc_shift(c: u16) -> u16 {
    if c & 0x8000 != 0 {
        ((c << 1u16) ^ 0x1021u16) as u16
    } else {
        (c << 1u16) as u16
    }
}

/// `n` successive shifts of the register.
pub open spec fn crc_shifts(c: u16, n: nat) -> u16
    decreases n,
{
    if n == 0 {
        c
    } else {
        crc_shift(crc_shifts(c, (n - 1) as nat))
    }
}

/// The register after absorbing one byte.
pub open spec fn crc_byte(c: u16, b: u8) -> u16 {
    crc_shifts(c ^ ((b as u16) << 8u16), 8)
}

/// CRC16-CCITT (polynomial 0x1021, no reflection) of `s`, starting from `seed`.
pub open spec fn crc16(seed: u16, s: Seq<u8>) -> u16
    decreases s.len(),
{
    if s.len() == 0 {
        seed
    } else {
        crc_byte(crc16(seed, s.drop_last()), s.last())
    }
}

/// Continues a CRC16-CCITT computation from `crc` over `data`.
pub fn crc16_update(crc: u16, data: &[u8]) -> (r: u16)
    ensures
        r == crc16(crc, data@),
{
    let mut c: u16 = crc;
    let mut i: usize = 0;
    while i < data.len()
        invariant
            i <= data@.len(),
            c == crc16(crc, data@.subrange(0, i as int)),
        decreases data@.len() - i,
    {
        let byte = data[i];
        let start: u16 = c ^ ((byte as u16) << 8u16);
        c = start;
        let mut k: u32 = 0;
        while k < 8
            invariant
                k <= 8,
                c == crc_shifts(start, k as nat),
            decreases 8 - k,
        {
            let temp: u16 = c << 1u16;
            if c & 0x8000 != 0 {
                c = temp ^ 0x1021;
            } else {
                c = temp;
            }
            k = k + 1;
        }
        proof {
            let next = data@.subrange(0, i + 1);
            assert(next.drop_last() =~= data@.subrange(0, i as int));
            assert(next.last() == byte);
        }
        i = i + 1;
    }
    proof {
        assert(data@.subrange(0, data@.len() as int) =~= data@);
    }
    c
}

proof fn lemma_shift_injective(u: u16, v: u16)
    requires
        u != v,
    ensures
        crc_shift(u) != crc_shift(v),
{
    assert(((u & 0x8000 != 0) ==> (v & 0x8000 != 0) ==> ((u << 1u16) ^ 0x1021u16) as u16 != ((v
        << 1u16) ^ 0x1021u16) as u16) && ((u & 0x8000 != 0) ==> (v & 0x8000 == 0) ==> ((u
        << 1u16) ^ 0x1021u16) as u16 != (v << 1u16) as u16) && ((u & 0x8000 == 0) ==> (v & 0x8000
        != 0) ==> (u << 1u16) as u16 != ((v << 1u16) ^ 0x1021u16) as u16) && ((u & 0x8000 == 0)
        ==> (v & 0x8000 == 0) ==> (u << 1u16) as u16 != (v << 1u16) as u16)) by (bit_vector)
        requires
            u != v,
    ;
}

proof fn lemma_shifts_injective(u: u16, v: u16, n: nat)
    requires
        u != v,
    ensures
        crc_shifts(u, n) != crc_shifts(v, n),
    decreases n,
{
    if n > 0 {
        lemma_shifts_injective(u, v, (n - 1) as nat);
        lemma_shift_injective(crc_shifts(u, (n - 1) as nat), crc_shifts(v, (n - 1) as nat));
    }
}

/// Changing any one byte of the input changes the checksum.
pub proof fn lemma_crc_detects_byte_change(seed: u16, s: Seq<u8>, i: int, b: u8)
    requires
        0 <= i < s.len(),
        b != s[i],
    ensures
        crc16(seed, s) != crc16(seed, s.update(i, b)),
    decreases s.len(),
{
    let t = s.update(i, b);
    let x = s.last();
    let y = t.last();
    let c1 = crc16(seed, s.drop_last());
    let c2 = crc16(seed, t.drop_last());
    if i == s.len() - 1 {
        assert(t.drop_last() =~= s.drop_last());
        assert((c1 ^ ((x as u16) << 8u16)) != (c1 ^ ((y as u16) << 8u16))) by (bit_vector)
            requires
                x != y,
        ;
        lemma_shifts_injective(c1 ^ ((x as u16) << 8u16), c2 ^ ((y as u16) << 8u16), 8);
    } else {
        assert(t.drop_last() =~= s.drop_last().update(i, b));
        lemma_crc_detects_byte_change(seed, s.drop_last(), i, b);
        assert((c1 ^ ((x as u16) << 8u16)) != (c2 ^ ((x as u16) << 8u16))) by (bit_vector)
            requires
                c1 != c2,
        ;
        lemma_shifts_injective(c1 ^ ((x as u16) << 8u16), c2 ^ ((y as u16) << 8u16), 8);
    }
}

} // verus!
