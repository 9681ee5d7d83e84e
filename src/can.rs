use vstd::prelude::*;

verus! {

/// Size of one CAN-over-Ethernet transport frame: info byte, 4-byte identifier, 8 data bytes.
pub const CAN_FRAME_SIZE: usize = 13;

/// Info byte of a standard (11-bit identifier) data frame carrying 8 bytes.
pub const INFO_STANDARD: u8 = 0x08;

/// Info byte of an extended (29-bit identifier) data frame carrying 8 bytes.
pub const INFO_EXTENDED: u8 = 0x88;

/// The 32-bit big-endian value held in bytes `i..i+4` of `s`.
pub open spec fn be32_at(s: Seq<u8>, i: int) -> int {
    s[i] as int * 0x1000000 + s[i + 1] as int * 0x10000 + s[i + 2] as int * 0x100 + s[i + 3] as int
}

/// The wire image of a frame: info byte, identifier as four big-endian bytes, then the payload.
pub open spec fn frame_bytes(info: u8, id: u32, data: Seq<u8>) -> Seq<u8> {
    seq![
        info,
        (id / 0x1000000) as u8,
        ((id / 0x10000) % 0x100) as u8,
        ((id / 0x100) % 0x100) as u8,
        (id % 0x100) as u8,
    ] + data
}

/// Standard identifier built from a 3-bit mode and an 8-bit motor address.
pub open spec fn standard_id(mode: u8, motor_id: u8) -> int {
    mode as int * 0x100 + motor_id as int
}

/// Extended identifier: 5-bit command type, 16-bit auxiliary field, 8-bit target address.
pub open spec fn extended_id(comm_type: u8, aux: u16, target: u8) -> int {
    (comm_type as int % 32) * 0x1000000 + aux as int * 0x100 + target as int
}

fn be_bytes(id: u32) -> (r: (u8, u8, u8, u8))
    ensures
        r.0 == (id / 0x1000000) as u8,
        r.1 == ((id / 0x10000) % 0x100) as u8,
        r.2 == ((id / 0x100) % 0x100) as u8,
        r.3 == (id % 0x100) as u8,
{
    let b0 = (id >> 24u32) as u8;
    let b1 = ((id >> 16u32) & 0xFF) as u8;
    let b2 = ((id >> 8u32) & 0xFF) as u8;
    let b3 = (id & 0xFF) as u8;
    assert(b0 == (id / 0x1000000) as u8 && b1 == ((id / 0x10000) % 0x100) as u8 && b2 == ((id
        / 0x100) % 0x100) as u8 && b3 == (id % 0x100) as u8) by (bit_vector)
        requires
            b0 == (id >> 24u32) as u8,
            b1 == ((id >> 16u32) & 0xFF) as u8,
            b2 == ((id >> 8u32) & 0xFF) as u8,
            b3 == (id & 0xFF) as u8,
    ;
    (b0, b1, b2, b3)
}

fn assemble(info: u8, id: u32, data: &[u8; 8]) -> (r: [u8; CAN_FRAME_SIZE])
    ensures
        r@ == frame_bytes(info, id, data@),
{
    let (b0, b1, b2, b3) = be_bytes(id);
    let mut frame = [0u8; CAN_FRAME_SIZE];
    frame[0] = info;
    frame[1] = b0;
    frame[2] = b1;
    frame[3] = b2;
    frame[4] = b3;
    let mut i: usize = 0;
    while i < 8
        invariant
            i <= 8,
            frame@.len() == 13,
            frame@.subrange(0, 5) == frame_bytes(info, id, data@).subrange(0, 5),
            forall|j: int| 0 <= j < i ==> frame@[5 + j] == data@[j],
        decreases 8 - i,
    {
        frame[5 + i] = data[i];
        i = i + 1;
    }
    let ghost fb = frame_bytes(info, id, data@);
    assert forall|j: int| 0 <= j < 13 implies frame@[j] == fb[j] by {
        if j < 5 {
            assert(frame@.subrange(0, 5)[j] == fb.subrange(0, 5)[j]);
        } else {
            assert(fb[j] == data@[j - 5]);
            assert(frame@[5 + (j - 5)] == data@[j - 5]);
        }
    }
    assert(frame@ =~= fb);
    frame
}

/// Builds the 13-byte frame of a standard data frame with identifier `can_id`.
pub fn build_can_frame(can_id: u16, data: &[u8; 8]) -> (r: [u8; CAN_FRAME_SIZE])
    ensures
        r@ == frame_bytes(INFO_STANDARD, can_id as u32, data@),
        r[0] == 0x08 && r[1] == 0 && r[2] == 0,
        r[3] as int == can_id as int / 0x100,
        r[4] as int == can_id as int % 0x100,
        r@.subrange(5, 13) == data@,
{
    let r = assemble(INFO_STANDARD, can_id as u32, data);
    assert(r@.subrange(5, 13) =~= data@);
    r
}

/// Builds the 13-byte frame of an extended data frame with identifier `ext_can_id`.
pub fn build_ext_can_frame(ext_can_id: u32, data: &[u8; 8]) -> (r: [u8; CAN_FRAME_SIZE])
    ensures
        r@ == frame_bytes(INFO_EXTENDED, ext_can_id, data@),
        r[0] == 0x88,
        be32_at(r@, 1) == ext_can_id as int,
        r@.subrange(5, 13) == data@,
{
    let r = assemble(INFO_EXTENDED, ext_can_id, data);
    assert(r@.subrange(5, 13) =~= data@);
    r
}

/// Splits a 13-byte frame into its info byte, its 32-bit big-endian identifier and its payload.
pub fn parse_can_frame(frame: &[u8; CAN_FRAME_SIZE]) -> (r: (u8, u32, [u8; 8]))
    ensures
        r.0 == frame[0],
        r.1 as int == be32_at(frame@, 1),
        r.2@ == frame@.subrange(5, 13),
{
    let b0 = frame[1] as u32;
    let b1 = frame[2] as u32;
    let b2 = frame[3] as u32;
    let b3 = frame[4] as u32;
    let can_id = (b0 << 24u32) | (b1 << 16u32) | (b2 << 8u32) | b3;
    assert(can_id as int == b0 * 0x1000000 + b1 * 0x10000 + b2 * 0x100 + b3) by (bit_vector)
        requires
            b0 < 256 && b1 < 256 && b2 < 256 && b3 < 256,
            can_id == (b0 << 24u32) | (b1 << 16u32) | (b2 << 8u32) | b3,
    ;
    let mut data = [0u8; 8];
    let mut i: usize = 0;
    while i < 8
        invariant
            i <= 8,
            data@.len() == 8,
            forall|j: int| 0 <= j < i ==> data@[j] == frame@[5 + j],
        decreases 8 - i,
    {
        data[i] = frame[5 + i];
        i = i + 1;
    }
    assert(data@ =~= frame@.subrange(5, 13));
    (frame[0], can_id, data)
}

/// True when the info byte announces a standard data frame (top two bits `00`).
pub fn is_standard_data_frame(frame_info: u8) -> (r: bool)
    ensures
        r == (frame_info < 0x40),
{
    let r = frame_info & 0xC0 == 0;
    assert(r == (frame_info < 0x40)) by (bit_vector)
        requires
            r == (frame_info & 0xC0 == 0),
    ;
    r
}

/// True when the info byte announces an extended data frame (top two bits `10`).
pub fn is_extended_data_frame(frame_info: u8) -> (r: bool)
    ensures
        r == (0x80 <= frame_info < 0xC0),
{
    let r = (frame_info & 0xC0) == 0x80;
    assert(r == (0x80 <= frame_info < 0xC0)) by (bit_vector)
        requires
            r == ((frame_info & 0xC0) == 0x80),
    ;
    r
}

/// Standard identifier: `mode << 8 | motor_id`.
pub fn make_can_id(mode: u8, motor_id: u8) -> (r: u16)
    ensures
        r as int == standard_id(mode, motor_id),
{
    let m = mode as u16;
    let a = motor_id as u16;
    let r = (m << 8u16) | a;
    assert(r as int == m * 0x100 + a) by (bit_vector)
        requires
            m < 256 && a < 256,
            r == (m << 8u16) | a,
    ;
    r
}

/// Extended identifier: `(comm_type & 0x1F) << 24 | data_area2 << 8 | target_id`.
pub fn make_ext_can_id(comm_type: u8, data_area2: u16, target_id: u8) -> (r: u32)
    ensures
        r as int == extended_id(comm_type, data_area2, target_id),
        r < 0x2000_0000,
{
    let t = comm_type as u32;
    let a = data_area2 as u32;
    let g = target_id as u32;
    let r = ((t & 0x1F) << 24u32) | (a << 8u32) | g;
    assert(r as int == (t % 32) * 0x1000000 + a * 0x100 + g && r < 0x2000_0000) by (bit_vector)
        requires
            t < 256 && a < 0x10000 && g < 256,
            r == ((t & 0x1F) << 24u32) | (a << 8u32) | g,
    ;
    r
}

/// Splits an extended identifier into command type, auxiliary field and target address.
pub fn parse_ext_can_id(ext_id: u32) -> (r: (u8, u16, u8))
    ensures
        r.0 as int == (ext_id as int / 0x1000000) % 32,
        r.1 as int == (ext_id as int / 0x100) % 0x10000,
        r.2 as int == ext_id as int % 0x100,
{
    let t = ((ext_id >> 24u32) & 0x1F) as u8;
    let a = ((ext_id >> 8u32) & 0xFFFF) as u16;
    let g = (ext_id & 0xFF) as u8;
    assert(t as u32 == (ext_id / 0x1000000) % 32 && a as u32 == (ext_id / 0x100) % 0x10000
        && g as u32 == ext_id % 0x100) by (bit_vector)
        requires
            t == ((ext_id >> 24u32) & 0x1F) as u8,
            a == ((ext_id >> 8u32) & 0xFFFF) as u16,
            g == (ext_id & 0xFF) as u8,
    ;
    (t, a, g)
}

/// Parsing a frame rebuilds what built it: info byte, identifier and payload come back
/// unchanged, for a standard and for an extended frame alike.
pub proof fn lemma_frame_round_trip(info: u8, id: u32, data: Seq<u8>)
    requires
        data.len() == 8,
    ensures
        frame_bytes(info, id, data)[0] == info,
        be32_at(frame_bytes(info, id, data), 1) == id as int,
        frame_bytes(info, id, data).subrange(5, 13) == data,
{
    let f = frame_bytes(info, id, data);
    let x = id as int;
    assert(x == (x / 0x1000000) * 0x1000000 + ((x / 0x10000) % 0x100) * 0x10000 + ((x / 0x100)
        % 0x100) * 0x100 + x % 0x100) by (nonlinear_arith)
        requires
            0 <= x < 0x1_0000_0000,
    ;
    assert(f.subrange(5, 13) =~= data);
}

/// A standard frame parses back to info byte 0x08, the identifier it was built with, and its
/// payload.
pub proof fn lemma_standard_frame_round_trip(can_id: u16, data: Seq<u8>)
    requires
        data.len() == 8,
    ensures
        frame_bytes(INFO_STANDARD, can_id as u32, data)[0] == 0x08,
        be32_at(frame_bytes(INFO_STANDARD, can_id as u32, data), 1) == can_id as int,
        frame_bytes(INFO_STANDARD, can_id as u32, data).subrange(5, 13) == data,
{
    lemma_frame_round_trip(INFO_STANDARD, can_id as u32, data);
}

/// An extended frame parses back to info byte 0x88, the identifier it was built with, and its
/// payload.
pub proof fn lemma_extended_frame_round_trip(ext_can_id: u32, data: Seq<u8>)
    requires
        ext_can_id < 0x2000_0000,
        data.len() == 8,
    ensures
        frame_bytes(INFO_EXTENDED, ext_can_id, data)[0] == 0x88,
        be32_at(frame_bytes(INFO_EXTENDED, ext_can_id, data), 1) == ext_can_id as int,
        frame_bytes(INFO_EXTENDED, ext_can_id, data).subrange(5, 13) == data,
{
    lemma_frame_round_trip(INFO_EXTENDED, ext_can_id, data);
}

/// Splitting an extended identifier gives back the command type, auxiliary field and target
/// address it was made of, for every command type that fits in five bits.
pub proof fn lemma_ext_id_round_trip(comm_type: u8, aux: u16, target: u8)
    requires
        comm_type < 32,
    ensures
        (extended_id(comm_type, aux, target) / 0x1000000) % 32 == comm_type as int,
        (extended_id(comm_type, aux, target) / 0x100) % 0x10000 == aux as int,
        extended_id(comm_type, aux, target) % 0x100 == target as int,
{
    let t = comm_type as int;
    let a = aux as int;
    let g = target as int;
    assert(t % 32 == t);
    assert(((t * 0x1000000 + a * 0x100 + g) / 0x1000000) % 32 == t && ((t * 0x1000000 + a * 0x100
        + g) / 0x100) % 0x10000 == a && (t * 0x1000000 + a * 0x100 + g) % 0x100 == g)
        by (nonlinear_arith)
        requires
            0 <= t < 32,
            0 <= a < 0x10000,
            0 <= g < 0x100,
    ;
}

} // verus!
