use vstd::prelude::*;

use crate::bytes::{le16, le16_at, le32, le32_at, le32_bytes, le32_seq, lemma_le32_round_trip};
use crate::can::{extended_id, make_ext_can_id};
use crate::params::ParamType;

verus! {

/// Command type: ask for the 64-bit device identifier.
pub const COMM_GET_ID: u8 = 0x00;

/// Command type: unsolicited feedback, and the version reply.
pub const COMM_FEEDBACK: u8 = 0x02;

/// Command type: enable.
pub const COMM_ENABLE: u8 = 0x03;

/// Command type: stop, and the version request.
pub const COMM_STOP: u8 = 0x04;

/// Command type: set mechanical zero.
pub const COMM_SET_ZERO: u8 = 0x06;

/// Command type: change the motor address.
pub const COMM_SET_CAN_ID: u8 = 0x07;

/// Command type: read one parameter.
pub const COMM_PARAM_READ: u8 = 0x11;

/// Command type: write one parameter.
pub const COMM_PARAM_WRITE: u8 = 0x12;

/// Command type: fault feedback.
pub const COMM_FAULT: u8 = 0x15;

/// Command type: save parameters.
pub const COMM_SAVE: u8 = 0x16;

/// Command type: change baud rate.
pub const COMM_BAUD: u8 = 0x17;

/// Command type: toggle active reporting; its replies carry feedback.
pub const COMM_ACTIVE_REPORT: u8 = 0x18;

/// Command type: change protocol.
pub const COMM_PROTOCOL: u8 = 0x19;

/// Identifier of a request of type `comm_type` from `master` to `motor`: the requester sits
/// in the high byte of the auxiliary field.
pub open spec fn request_id(comm_type: u8, master: u8, motor: u8) -> int {
    extended_id(comm_type, (master as int * 0x100) as u16, motor)
}

/// Payload of a parameter access: little-endian index, two zero bytes, then `value`.
pub open spec fn param_payload(index: u16, value: Seq<u8>) -> Seq<u8> {
    seq![(index % 0x100) as u8, (index / 0x100) as u8, 0u8, 0u8] + value
}

/// Payload of the baud, active-report and protocol commands: `01..06`, `code`, `00`.
pub open spec fn prefixed_payload(code: u8) -> Seq<u8> {
    seq![1u8, 2u8, 3u8, 4u8, 5u8, 6u8, code, 0u8]
}

/// Eight zero bytes.
pub open spec fn zeros() -> Seq<u8> {
    seq![0u8, 0u8, 0u8, 0u8, 0u8, 0u8, 0u8, 0u8]
}

fn request(comm_type: u8, master_id: u8, motor_id: u8) -> (r: u32)
    ensures
        r as int == request_id(comm_type, master_id, motor_id),
{
    let m = master_id as u16;
    let aux = m << 8u16;
    assert(aux == m * 0x100) by (bit_vector)
        requires
            m < 256,
            aux == m << 8u16,
    ;
    make_ext_can_id(comm_type, aux, motor_id)
}

fn param_data(index: u16, v0: u8, v1: u8, v2: u8, v3: u8) -> (r: [u8; 8])
    ensures
        r@ == param_payload(index, seq![v0, v1, v2, v3]),
{
    let lo = (index & 0xFF) as u8;
    let hi = (index >> 8u16) as u8;
    assert(lo == (index % 0x100) as u8 && hi == (index / 0x100) as u8) by (bit_vector)
        requires
            lo == (index & 0xFF) as u8,
            hi == (index >> 8u16) as u8,
    ;
    let r = [lo, hi, 0, 0, v0, v1, v2, v3];
    assert(r@ =~= param_payload(index, seq![v0, v1, v2, v3]));
    r
}

/// Asks a motor for its 64-bit device identifier (type 0, empty payload).
pub fn priv_cmd_get_device_id(master_id: u8, motor_id: u8) -> (r: (u32, [u8; 8]))
    ensures
        r.0 as int == request_id(COMM_GET_ID, master_id, motor_id),
        r.1@ == zeros(),
{
    let data = [0u8; 8];
    assert(data@ =~= zeros());
    (request(COMM_GET_ID, master_id, motor_id), data)
}

/// Enables a motor (type 3, empty payload).
pub fn priv_cmd_enable(master_id: u8, motor_id: u8) -> (r: (u32, [u8; 8]))
    ensures
        r.0 as int == request_id(COMM_ENABLE, master_id, motor_id),
        r.1@ == zeros(),
{
    let data = [0u8; 8];
    assert(data@ =~= zeros());
    (request(COMM_ENABLE, master_id, motor_id), data)
}

/// Stops a motor (type 4); byte 0 is 1 when faults are to be cleared as well.
pub fn priv_cmd_stop(master_id: u8, motor_id: u8, clear_fault: bool) -> (r: (u32, [u8; 8]))
    ensures
        r.0 as int == request_id(COMM_STOP, master_id, motor_id),
        r.1@ == zeros().update(0, if clear_fault { 1u8 } else { 0u8 }),
{
    let mut data = [0u8; 8];
    if clear_fault {
        data[0] = 1;
    }
    assert(data@ =~= zeros().update(0, if clear_fault { 1u8 } else { 0u8 }));
    (request(COMM_STOP, master_id, motor_id), data)
}

/// Sets the mechanical zero (type 6, byte 0 = 1).
pub fn priv_cmd_set_zero(master_id: u8, motor_id: u8) -> (r: (u32, [u8; 8]))
    ensures
        r.0 as int == request_id(COMM_SET_ZERO, master_id, motor_id),
        r.1@ == zeros().update(0, 1u8),
{
    let mut data = [0u8; 8];
    data[0] = 1;
    assert(data@ =~= zeros().update(0, 1u8));
    (request(COMM_SET_ZERO, master_id, motor_id), data)
}

/// Gives a motor a new address (type 7). Here the auxiliary field is `new_id << 8 | master_id`.
pub fn priv_cmd_set_can_id(master_id: u8, motor_id: u8, new_id: u8) -> (r: (u32, [u8; 8]))
    ensures
        r.0 as int == extended_id(
            COMM_SET_CAN_ID,
            (new_id as int * 0x100 + master_id as int) as u16,
            motor_id,
        ),
        r.1@ == zeros(),
{
    let n = new_id as u16;
    let m = master_id as u16;
    let aux = (n << 8u16) | m;
    assert(aux == n * 0x100 + m) by (bit_vector)
        requires
            n < 256 && m < 256,
            aux == (n << 8u16) | m,
    ;
    let data = [0u8; 8];
    assert(data@ =~= zeros());
    (make_ext_can_id(COMM_SET_CAN_ID, aux, motor_id), data)
}

/// Reads parameter `index` (type 0x11).
pub fn priv_cmd_param_read(master_id: u8, motor_id: u8, index: u16) -> (r: (u32, [u8; 8]))
    ensures
        r.0 as int == request_id(COMM_PARAM_READ, master_id, motor_id),
        r.1@ == param_payload(index, seq![0u8, 0u8, 0u8, 0u8]),
{
    (request(COMM_PARAM_READ, master_id, motor_id), param_data(index, 0, 0, 0, 0))
}

/// Writes a one-byte parameter (type 0x12).
pub fn priv_cmd_param_write_u8(master_id: u8, motor_id: u8, index: u16, value: u8) -> (r: (
    u32,
    [u8; 8],
))
    ensures
        r.0 as int == request_id(COMM_PARAM_WRITE, master_id, motor_id),
        r.1@ == param_payload(index, seq![value, 0u8, 0u8, 0u8]),
{
    (request(COMM_PARAM_WRITE, master_id, motor_id), param_data(index, value, 0, 0, 0))
}

/// Writes a two-byte parameter, little-endian (type 0x12).
pub fn priv_cmd_param_write_u16(master_id: u8, motor_id: u8, index: u16, value: u16) -> (r: (
    u32,
    [u8; 8],
))
    ensures
        r.0 as int == request_id(COMM_PARAM_WRITE, master_id, motor_id),
        r.1@ == param_payload(
            index,
            seq![(value % 0x100) as u8, (value / 0x100) as u8, 0u8, 0u8],
        ),
{
    let lo = (value & 0xFF) as u8;
    let hi = (value >> 8u16) as u8;
    assert(lo == (value % 0x100) as u8 && hi == (value / 0x100) as u8) by (bit_vector)
        requires
            lo == (value & 0xFF) as u8,
            hi == (value >> 8u16) as u8,
    ;
    (request(COMM_PARAM_WRITE, master_id, motor_id), param_data(index, lo, hi, 0, 0))
}

/// Writes a four-byte parameter, little-endian (type 0x12).
pub fn priv_cmd_param_write_u32(master_id: u8, motor_id: u8, index: u16, value: u32) -> (r: (
    u32,
    [u8; 8],
))
    ensures
        r.0 as int == request_id(COMM_PARAM_WRITE, master_id, motor_id),
        r.1@ == param_payload(index, le32_seq(value)),
{
    let (b0, b1, b2, b3) = le32_bytes(value);
    (request(COMM_PARAM_WRITE, master_id, motor_id), param_data(index, b0, b1, b2, b3))
}

/// Writes a single-precision parameter given as its IEEE-754 bit pattern (type 0x12).
pub fn priv_cmd_param_write_f32(master_id: u8, motor_id: u8, index: u16, value: u32) -> (r: (
    u32,
    [u8; 8],
))
    ensures
        r.0 as int == request_id(COMM_PARAM_WRITE, master_id, motor_id),
        r.1@ == param_payload(index, le32_seq(value)),
{
    priv_cmd_param_write_u32(master_id, motor_id, index, value)
}

/// The four value bytes a parameter write of type `t` carries for `value`: as many
/// little-endian bytes as the type is wide, then zeros. A string parameter has none.
pub open spec fn value_bytes(t: ParamType, value: u32) -> Option<Seq<u8>> {
    match t {
        ParamType::U8 => Some(seq![(value % 0x100) as u8, 0u8, 0u8, 0u8]),
        ParamType::U16 | ParamType::I16 => Some(
            seq![(value % 0x100) as u8, ((value / 0x100) % 0x100) as u8, 0u8, 0u8],
        ),
        ParamType::U32 | ParamType::F32 => Some(le32_seq(value)),
        ParamType::Str => None,
    }
}

/// Writes parameter `index` of type `param_type`. `value` holds the raw value in its low
/// bits: the integer for the integer types (two's complement for `I16`), the IEEE-754 bit
/// pattern for `F32`. String parameters cannot be written this way: `None`.
pub fn priv_cmd_param_write(
    master_id: u8,
    motor_id: u8,
    index: u16,
    param_type: ParamType,
    value: u32,
) -> (r: Option<(u32, [u8; 8])>)
    ensures
        r.is_some() == value_bytes(param_type, value).is_some(),
        r.is_some() ==> r.unwrap().0 as int == request_id(COMM_PARAM_WRITE, master_id, motor_id)
            && r.unwrap().1@ == param_payload(index, value_bytes(param_type, value).unwrap()),
{
    match param_type {
        ParamType::U8 => Some(
            priv_cmd_param_write_u8(master_id, motor_id, index, (value % 0x100) as u8),
        ),
        ParamType::U16 | ParamType::I16 => {
            let v = (value % 0x10000) as u16;
            let ghost x = value as int;
            assert((x % 0x10000) % 0x100 == x % 0x100 && (x % 0x10000) / 0x100 == (x / 0x100)
                % 0x100) by (nonlinear_arith)
                requires
                    x >= 0,
            ;
            Some(priv_cmd_param_write_u16(master_id, motor_id, index, v))
        },
        ParamType::U32 => Some(priv_cmd_param_write_u32(master_id, motor_id, index, value)),
        ParamType::F32 => Some(priv_cmd_param_write_f32(master_id, motor_id, index, value)),
        ParamType::Str => None,
    }
}

/// Asks for fault feedback (type 0x15, empty payload).
pub fn priv_cmd_fault_feedback(master_id: u8, motor_id: u8) -> (r: (u32, [u8; 8]))
    ensures
        r.0 as int == request_id(COMM_FAULT, master_id, motor_id),
        r.1@ == zeros(),
{
    let data = [0u8; 8];
    assert(data@ =~= zeros());
    (request(COMM_FAULT, master_id, motor_id), data)
}

/// Saves all parameters to flash (type 0x16, magic payload `01..08`).
pub fn priv_cmd_save_params(master_id: u8, motor_id: u8) -> (r: (u32, [u8; 8]))
    ensures
        r.0 as int == request_id(COMM_SAVE, master_id, motor_id),
        r.1@ == seq![1u8, 2u8, 3u8, 4u8, 5u8, 6u8, 7u8, 8u8],
{
    let data = [0x01, 0x02, 0x03, 0x04, 0x05, 0x06, 0x07, 0x08];
    assert(data@ =~= seq![1u8, 2u8, 3u8, 4u8, 5u8, 6u8, 7u8, 8u8]);
    (request(COMM_SAVE, master_id, motor_id), data)
}

fn prefixed(code: u8) -> (r: [u8; 8])
    ensures
        r@ == prefixed_payload(code),
{
    let data = [0x01, 0x02, 0x03, 0x04, 0x05, 0x06, code, 0x00];
    assert(data@ =~= prefixed_payload(code));
    data
}

/// Changes the bus baud rate (type 0x17; 1 = 1M, 2 = 500K, 3 = 250K, 4 = 125K).
pub fn priv_cmd_change_baud(master_id: u8, motor_id: u8, baud_code: u8) -> (r: (u32, [u8; 8]))
    ensures
        r.0 as int == request_id(COMM_BAUD, master_id, motor_id),
        r.1@ == prefixed_payload(baud_code),
{
    (request(COMM_BAUD, master_id, motor_id), prefixed(baud_code))
}

/// Turns active reporting off (0) or on (1) (type 0x18).
pub fn priv_cmd_active_report(master_id: u8, motor_id: u8, enable: u8) -> (r: (u32, [u8; 8]))
    ensures
        r.0 as int == request_id(COMM_ACTIVE_REPORT, master_id, motor_id),
        r.1@ == prefixed_payload(enable),
{
    (request(COMM_ACTIVE_REPORT, master_id, motor_id), prefixed(enable))
}

/// Switches the protocol (type 0x19; 0 private, 1 CANopen, 2 fixed-point).
pub fn priv_cmd_change_protocol(master_id: u8, motor_id: u8, protocol: u8) -> (r: (
    u32,
    [u8; 8],
))
    ensures
        r.0 as int == request_id(COMM_PROTOCOL, master_id, motor_id),
        r.1@ == prefixed_payload(protocol),
{
    (request(COMM_PROTOCOL, master_id, motor_id), prefixed(protocol))
}

/// Asks for the firmware version: a stop-type request whose payload opens with `00 C4`.
pub fn priv_cmd_read_version(master_id: u8, motor_id: u8) -> (r: (u32, [u8; 8]))
    ensures
        r.0 as int == request_id(COMM_STOP, master_id, motor_id),
        r.1@ == zeros().update(1, 0xC4u8),
{
    let mut data = [0u8; 8];
    data[0] = 0x00;
    data[1] = 0xC4;
    assert(data@ =~= zeros().update(1, 0xC4u8));
    (request(COMM_STOP, master_id, motor_id), data)
}

/// Reply to a parameter read. The value is kept as its four bytes and as their little-endian
/// word; for a single-precision parameter that word is the IEEE-754 bit pattern.
#[derive(Clone, Copy, Debug, PartialEq, Eq)]
pub struct ParamReadResponse {
    pub index: u16,
    pub success: bool,
    pub value_bytes: [u8; 4],
    pub value_u32: u32,
}

/// `r` is the parameter-read reply held in the auxiliary field `aux` and the payload `data`.
pub open spec fn param_read_matches(r: ParamReadResponse, aux: u16, data: Seq<u8>) -> bool {
    &&& r.index as int == le16_at(data, 0)
    &&& r.success == (aux < 0x100)
    &&& r.value_bytes@ == data.subrange(4, 8)
    &&& r.value_u32 as int == le32_at(data, 4)
}

/// Reads a parameter-read reply: index from bytes 0..2, success when the high byte of the
/// auxiliary field is zero, value from bytes 4..8.
pub fn decode_param_read_response(data_area2: u16, data: &[u8; 8]) -> (r: ParamReadResponse)
    ensures
        param_read_matches(r, data_area2, data@),
{
    let index = le16(data, 0);
    let success = (data_area2 >> 8u16) == 0;
    assert(success == (data_area2 < 0x100)) by (bit_vector)
        requires
            success == ((data_area2 >> 8u16) == 0),
    ;
    let value_bytes = [data[4], data[5], data[6], data[7]];
    assert(value_bytes@ =~= data@.subrange(4, 8));
    let value_u32 = le32(data, 4);
    ParamReadResponse { index, success, value_bytes, value_u32 }
}

/// A value written with `priv_cmd_param_write_f32` (or `_u32`) reads back unchanged from the
/// same payload, under the same index; the index travels as its little-endian bytes.
pub proof fn lemma_param_write_read_back(index: u16, value: u32)
    ensures
        le16_at(param_payload(index, le32_seq(value)), 0) == index as int,
        le32_at(param_payload(index, le32_seq(value)), 4) == value as int,
        param_payload(index, le32_seq(value))[0] as int == index as int % 0x100,
        param_payload(index, le32_seq(value))[1] as int == index as int / 0x100,
{
    let p = param_payload(index, le32_seq(value));
    lemma_le32_round_trip(value);
    assert(p.subrange(4, 8) =~= le32_seq(value));
    assert(p[4] == le32_seq(value)[0] && p[5] == le32_seq(value)[1] && p[6] == le32_seq(value)[2]
        && p[7] == le32_seq(value)[3]);
}

/// Type-2 feedback, as quantized on the wire. Angle, velocity and torque are 16-bit over
/// [-12.57, 12.57] rad, [-33, 33] rad/s and [-14, 14] N.m; temperature is in tenths of a degree.
#[derive(Clone, Copy, Debug, PartialEq, Eq)]
pub struct PrivateFeedback {
    pub motor_id: u8,
    /// 0 reset, 1 calibrating, 2 running.
    pub mode_status: u8,
    /// Six-bit fault summary.
    pub fault_bits: u8,
    pub angle: u16,
    pub velocity: u16,
    pub torque: u16,
    pub temperature: u16,
}

/// Type-2 feedback held in the auxiliary field `aux` and the payload `data`.
pub open spec fn private_feedback_of(aux: u16, data: Seq<u8>) -> PrivateFeedback {
    PrivateFeedback {
        motor_id: (aux as int % 0x100) as u8,
        mode_status: (aux as int / 0x4000) as u8,
        fault_bits: ((aux as int / 0x100) % 0x40) as u8,
        angle: (data[0] as int * 0x100 + data[1] as int) as u16,
        velocity: (data[2] as int * 0x100 + data[3] as int) as u16,
        torque: (data[4] as int * 0x100 + data[5] as int) as u16,
        temperature: (data[6] as int * 0x100 + data[7] as int) as u16,
    }
}

/// Reads type-2 feedback. The responding motor's address is the low byte of the auxiliary
/// field, the fault summary bits 8 to 13, the mode status bits 14 and 15; the quantities are
/// big-endian 16-bit words.
pub fn decode_private_feedback(data_area2: u16, data: &[u8; 8]) -> (r: PrivateFeedback)
    ensures
        r == private_feedback_of(data_area2, data@),
{
    let motor_id = (data_area2 & 0xFF) as u8;
    let fault_bits = ((data_area2 >> 8u16) & 0x3F) as u8;
    let mode_status = ((data_area2 >> 14u16) & 0x03) as u8;
    assert(motor_id == data_area2 % 0x100 && fault_bits == (data_area2 / 0x100) % 0x40
        && mode_status == data_area2 / 0x4000) by (bit_vector)
        requires
            motor_id == (data_area2 & 0xFF) as u8,
            fault_bits == ((data_area2 >> 8u16) & 0x3F) as u8,
            mode_status == ((data_area2 >> 14u16) & 0x03) as u8,
    ;
    PrivateFeedback {
        motor_id,
        mode_status,
        fault_bits,
        angle: be16(data[0], data[1]),
        velocity: be16(data[2], data[3]),
        torque: be16(data[4], data[5]),
        temperature: be16(data[6], data[7]),
    }
}

fn be16(hi: u8, lo: u8) -> (r: u16)
    ensures
        r as int == hi as int * 0x100 + lo as int,
{
    let h = hi as u16;
    let l = lo as u16;
    let r = (h << 8u16) | l;
    assert(r == h * 0x100 + l) by (bit_vector)
        requires
            h < 256 && l < 256,
            r == (h << 8u16) | l,
    ;
    r
}

} // verus!
