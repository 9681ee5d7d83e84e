use vstd::prelude::*;

use crate::bytes::{le32_at, le32_bytes};

verus! {

/// Standard-dialect mode field: fixed-point ("MIT") control.
pub const MODE_MIT: u8 = 0;

/// Standard-dialect mode field: position control.
pub const MODE_POSITION: u8 = 1;

/// Standard-dialect mode field: speed control.
pub const MODE_SPEED: u8 = 2;

/// A sentinel command: six `0xFF` bytes followed by `b6` and `b7`.
pub open spec fn sentinel_cmd(b6: u8, b7: u8) -> Seq<u8> {
    seq![0xFFu8, 0xFFu8, 0xFFu8, 0xFFu8, 0xFFu8, 0xFFu8, b6, b7]
}

fn sentinel(b6: u8, b7: u8) -> (r: [u8; 8])
    ensures
        r@ == sentinel_cmd(b6, b7),
{
    let r = [0xFF, 0xFF, 0xFF, 0xFF, 0xFF, 0xFF, b6, b7];
    assert(r@ =~= sentinel_cmd(b6, b7));
    r
}

/// Enable the motor: `FF FF FF FF FF FF FF FC`.
pub fn cmd_enable() -> (r: [u8; 8])
    ensures
        r@ == sentinel_cmd(0xFF, 0xFC),
{
    sentinel(0xFF, 0xFC)
}

/// Stop the motor: `FF FF FF FF FF FF FF FD`.
pub fn cmd_stop() -> (r: [u8; 8])
    ensures
        r@ == sentinel_cmd(0xFF, 0xFD),
{
    sentinel(0xFF, 0xFD)
}

/// Set the current position as mechanical zero: `FF FF FF FF FF FF FF FE`.
pub fn cmd_set_zero() -> (r: [u8; 8])
    ensures
        r@ == sentinel_cmd(0xFF, 0xFE),
{
    sentinel(0xFF, 0xFE)
}

/// Clear faults (`f_cmd == 0xFF`) or ask for them (any other value).
pub fn cmd_clear_or_read_fault(f_cmd: u8) -> (r: [u8; 8])
    ensures
        r@ == sentinel_cmd(f_cmd, 0xFB),
{
    sentinel(f_cmd, 0xFB)
}

/// Select the run mode (0 fixed-point, 1 position, 2 speed). Shares its last byte with
/// `cmd_enable`; byte 6 tells them apart.
pub fn cmd_set_mode(mode: u8) -> (r: [u8; 8])
    ensures
        r@ == sentinel_cmd(mode, 0xFC),
{
    sentinel(mode, 0xFC)
}

/// Give the motor a new address.
pub fn cmd_change_motor_id(new_id: u8) -> (r: [u8; 8])
    ensures
        r@ == sentinel_cmd(new_id, 0xFA),
{
    sentinel(new_id, 0xFA)
}

/// Switch the protocol (0 private, 1 CANopen, 2 fixed-point). Shares its last byte with
/// `cmd_stop`; byte 6 tells them apart.
pub fn cmd_change_protocol(protocol: u8) -> (r: [u8; 8])
    ensures
        r@ == sentinel_cmd(protocol, 0xFD),
{
    sentinel(protocol, 0xFD)
}

/// Give the host a new address.
pub fn cmd_change_master_id(new_master_id: u8) -> (r: [u8; 8])
    ensures
        r@ == sentinel_cmd(0xFD, new_master_id),
{
    sentinel(0xFD, new_master_id)
}

fn two_words(a: u32, b: u32) -> (r: [u8; 8])
    ensures
        le32_at(r@, 0) == a as int,
        le32_at(r@, 4) == b as int,
{
    let (a0, a1, a2, a3) = le32_bytes(a);
    let (b0, b1, b2, b3) = le32_bytes(b);
    [a0, a1, a2, a3, b0, b1, b2, b3]
}

/// Position command: the target position then the speed limit, each the little-endian bit
/// pattern of an IEEE-754 single-precision value.
pub fn cmd_position(target_pos: u32, max_speed: u32) -> (r: [u8; 8])
    ensures
        le32_at(r@, 0) == target_pos as int,
        le32_at(r@, 4) == max_speed as int,
{
    two_words(target_pos, max_speed)
}

/// Speed command: the target speed then the current limit, each the little-endian bit
/// pattern of an IEEE-754 single-precision value.
pub fn cmd_speed(target_speed: u32, current_limit: u32) -> (r: [u8; 8])
    ensures
        le32_at(r@, 0) == target_speed as int,
        le32_at(r@, 4) == current_limit as int,
{
    two_words(target_speed, current_limit)
}

/// Layout of a fixed-point control command: 16-bit position, then 12-bit velocity,
/// proportional gain, derivative gain and torque, most significant bits first.
pub open spec fn mit_layout(pos: int, vel: int, kp: int, kd: int, torque: int) -> Seq<u8> {
    seq![
        (pos / 0x100) as u8,
        (pos % 0x100) as u8,
        (vel / 0x10) as u8,
        ((vel % 0x10) * 0x10 + kp / 0x100) as u8,
        (kp % 0x100) as u8,
        (kd / 0x10) as u8,
        ((kd % 0x10) * 0x10 + torque / 0x100) as u8,
        (torque % 0x100) as u8,
    ]
}

/// Packs the quantized fields of a fixed-point control command.
pub fn pack_mit_params(pos: u16, vel: u16, kp: u16, kd: u16, torque: u16) -> (r: [u8; 8])
    requires
        vel < 0x1000,
        kp < 0x1000,
        kd < 0x1000,
        torque < 0x1000,
    ensures
        r@ == mit_layout(pos as int, vel as int, kp as int, kd as int, torque as int),
{
    let d0 = (pos >> 8u16) as u8;
    let d1 = (pos & 0xFF) as u8;
    let d2 = (vel >> 4u16) as u8;
    let d3 = (((vel & 0xF) << 4u16) | ((kp >> 8u16) & 0xF)) as u8;
    let d4 = (kp & 0xFF) as u8;
    let d5 = (kd >> 4u16) as u8;
    let d6 = (((kd & 0xF) << 4u16) | ((torque >> 8u16) & 0xF)) as u8;
    let d7 = (torque & 0xFF) as u8;
    assert(d0 == (pos / 0x100) as u8 && d1 == (pos % 0x100) as u8) by (bit_vector)
        requires
            d0 == (pos >> 8u16) as u8,
            d1 == (pos & 0xFF) as u8,
    ;
    assert(d2 == (vel / 0x10) as u8 && d3 == ((vel % 0x10) * 0x10 + kp / 0x100) as u8 && d4 == (kp
        % 0x100) as u8) by (bit_vector)
        requires
            vel < 0x1000 && kp < 0x1000,
            d2 == (vel >> 4u16) as u8,
            d3 == (((vel & 0xF) << 4u16) | ((kp >> 8u16) & 0xF)) as u8,
            d4 == (kp & 0xFF) as u8,
    ;
    assert(d5 == (kd / 0x10) as u8 && d6 == ((kd % 0x10) * 0x10 + torque / 0x100) as u8 && d7 == (
    torque % 0x100) as u8) by (bit_vector)
        requires
            kd < 0x1000 && torque < 0x1000,
            d5 == (kd >> 4u16) as u8,
            d6 == (((kd & 0xF) << 4u16) | ((torque >> 8u16) & 0xF)) as u8,
            d7 == (torque & 0xFF) as u8,
    ;
    let r = [d0, d1, d2, d3, d4, d5, d6, d7];
    assert(r@ =~= mit_layout(pos as int, vel as int, kp as int, kd as int, torque as int));
    r
}

/// Standard-dialect status feedback, as quantized on the wire. Angle is 16-bit over
/// [-12.57, 12.57] rad, velocity 12-bit over [-33, 33] rad/s, torque 12-bit over [-14, 14] N.m;
/// temperature is in signed tenths of a degree Celsius.
#[derive(Clone, Copy, Debug, PartialEq, Eq)]
pub struct MotorFeedback {
    pub motor_id: u8,
    pub angle: u16,
    pub velocity: u16,
    pub torque: u16,
    pub temperature: i16,
}

/// A 16-bit word read as a two's-complement signed value.
pub open spec fn signed_word(w: int) -> int {
    if w < 0x8000 {
        w
    } else {
        w - 0x10000
    }
}

fn to_signed_word(w: u16) -> (r: i16)
    ensures
        r as int == signed_word(w as int),
{
    if w < 0x8000 {
        w as i16
    } else {
        (w as i32 - 0x10000) as i16
    }
}

/// Standard-dialect feedback held in `data`: address in byte 0, angle in bytes 1..3, velocity
/// in byte 3 and the high nibble of byte 4, torque in the low nibble of byte 4 and byte 5,
/// temperature in bytes 6..8 as a two's-complement word, all most significant first.
pub open spec fn feedback_of(data: Seq<u8>) -> MotorFeedback {
    MotorFeedback {
        motor_id: data[0],
        angle: (data[1] as int * 0x100 + data[2] as int) as u16,
        velocity: (data[3] as int * 0x10 + data[4] as int / 0x10) as u16,
        torque: ((data[4] as int % 0x10) * 0x100 + data[5] as int) as u16,
        temperature: signed_word(data[6] as int * 0x100 + data[7] as int) as i16,
    }
}

/// Unpacks standard-dialect status feedback.
pub fn decode_feedback(data: &[u8; 8]) -> (r: MotorFeedback)
    ensures
        r == feedback_of(data@),
{
    let b1 = data[1] as u16;
    let b2 = data[2] as u16;
    let b3 = data[3] as u16;
    let b4 = data[4] as u16;
    let b5 = data[5] as u16;
    let b6 = data[6] as u16;
    let b7 = data[7] as u16;
    let angle = (b1 << 8u16) | b2;
    let velocity = (b3 << 4u16) | (b4 >> 4u16);
    let torque = ((b4 & 0x0F) << 8u16) | b5;
    let temperature = (b6 << 8u16) | b7;
    assert(angle == b1 * 0x100 + b2 && velocity == b3 * 0x10 + b4 / 0x10 && torque == (b4 % 0x10)
        * 0x100 + b5 && temperature == b6 * 0x100 + b7) by (bit_vector)
        requires
            b1 < 256 && b2 < 256 && b3 < 256 && b4 < 256 && b5 < 256 && b6 < 256 && b7 < 256,
            angle == (b1 << 8u16) | b2,
            velocity == (b3 << 4u16) | (b4 >> 4u16),
            torque == ((b4 & 0x0F) << 8u16) | b5,
            temperature == (b6 << 8u16) | b7,
    ;
    MotorFeedback { motor_id: data[0], angle, velocity, torque, temperature: to_signed_word(temperature) }
}

/// Enable and set-mode share their last byte and differ in byte 6 whenever the mode is not
/// the `0xFF` sentinel; stop and change-protocol do the same.
pub proof fn lemma_sentinel_overlap(mode: u8, protocol: u8)
    requires
        mode != 0xFF,
        protocol != 0xFF,
    ensures
        sentinel_cmd(0xFF, 0xFC)[7] == sentinel_cmd(mode, 0xFC)[7],
        sentinel_cmd(0xFF, 0xFC)[6] != sentinel_cmd(mode, 0xFC)[6],
        sentinel_cmd(0xFF, 0xFD)[7] == sentinel_cmd(protocol, 0xFD)[7],
        sentinel_cmd(0xFF, 0xFD)[6] != sentinel_cmd(protocol, 0xFD)[6],
{
}

} // verus!
