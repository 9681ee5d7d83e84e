use vstd::prelude::*;

use crate::bytes::{le32, le32_at};
use crate::can::{
    be32_at, build_can_frame, frame_bytes, is_extended_data_frame, is_standard_data_frame,
    parse_can_frame, parse_ext_can_id, CAN_FRAME_SIZE, INFO_STANDARD,
};
use crate::faults::{decode_faults, matched_faults, FaultStatus, FAULT_COUNT};
use crate::mit::{decode_feedback, feedback_of, MotorFeedback};
use crate::private::{
    decode_param_read_response, decode_private_feedback, param_read_matches, private_feedback_of,
    ParamReadResponse, PrivateFeedback, COMM_ACTIVE_REPORT, COMM_FAULT, COMM_FEEDBACK, COMM_GET_ID,
    COMM_PARAM_READ,
};

verus! {

/// What an inbound frame turned out to be.
#[derive(Clone, Debug)]
pub enum Inbound {
    /// Standard-dialect status feedback addressed to the host.
    Feedback(MotorFeedback),
    /// A motor's 64-bit device identifier.
    DeviceId { motor_id: u8, device_id: [u8; 8] },
    /// A firmware version, four numbers from most to least significant.
    Version { motor_id: u8, version: [u8; 4] },
    /// Type-2 feedback.
    PrivateFeedback(PrivateFeedback),
    /// Feedback carried by an active-report reply.
    ReportFeedback(PrivateFeedback),
    /// Reply to a parameter read.
    ParamRead(ParamReadResponse),
    /// Fault feedback.
    Faults(FaultStatus),
    /// Anything else: seen, logged, not decoded.
    Other,
}

/// The payload of a type-2 reply opens with `00 C4 56` when it carries a firmware version.
pub open spec fn is_version_reply(data: Seq<u8>) -> bool {
    data[0] == 0 && data[1] == 0xC4 && data[2] == 0x56
}

/// `r` is what the 13-byte `frame` means to a host at address `master_id`.
pub open spec fn classified(r: Inbound, frame: Seq<u8>, master_id: u8) -> bool {
    let info = frame[0];
    let id = be32_at(frame, 1);
    let data = frame.subrange(5, 13);
    let comm_type = (id / 0x1000000) % 32;
    let aux = ((id / 0x100) % 0x10000) as u16;
    if info < 0x40 {
        if (id / 0x100) % 8 == 0 && id % 0x100 == master_id as int {
            r == Inbound::Feedback(feedback_of(data))
        } else {
            r is Other
        }
    } else if 0x80 <= info < 0xC0 {
        if comm_type == COMM_GET_ID as int {
            r matches Inbound::DeviceId { motor_id, device_id } && motor_id as int == aux as int
                % 0x100 && device_id@ == data
        } else if comm_type == COMM_FEEDBACK as int && is_version_reply(data) {
            r matches Inbound::Version { motor_id, version } && motor_id as int == aux as int
                % 0x100 && version@ == data.subrange(3, 7)
        } else if comm_type == COMM_FEEDBACK as int {
            r == Inbound::PrivateFeedback(private_feedback_of(aux, data))
        } else if comm_type == COMM_PARAM_READ as int {
            r matches Inbound::ParamRead(p) && param_read_matches(p, aux, data)
        } else if comm_type == COMM_FAULT as int {
            r matches Inbound::Faults(f) && f.raw as int == le32_at(data, 0)
                && f.faults@.map_values(|s: String| s@) == matched_faults(
                f.raw,
                FAULT_COUNT as int,
            )
        } else if comm_type == COMM_ACTIVE_REPORT as int {
            r == Inbound::ReportFeedback(private_feedback_of(aux, data))
        } else {
            r is Other
        }
    } else {
        r is Other
    }
}

/// Classifies one inbound frame and decodes what it carries. Standard frames count only when
/// they are mode-0 feedback addressed to `master_id`; extended frames are told apart by their
/// command type; remote frames are ignored.
pub fn classify_frame(frame: &[u8; CAN_FRAME_SIZE], master_id: u8) -> (r: Inbound)
    ensures
        classified(r, frame@, master_id),
{
    let (frame_info, can_id, data) = parse_can_frame(frame);
    if is_standard_data_frame(frame_info) {
        let mode = (can_id / 0x100) % 8;
        let id_field = (can_id % 0x100) as u8;
        if mode == 0 && id_field == master_id {
            Inbound::Feedback(decode_feedback(&data))
        } else {
            Inbound::Other
        }
    } else if is_extended_data_frame(frame_info) {
        let (comm_type, data_area2, _target_id) = parse_ext_can_id(can_id);
        let responder = (data_area2 % 0x100) as u8;
        assert(data_area2 == ((be32_at(frame@, 1) / 0x100) % 0x10000) as u16);
        if comm_type == COMM_GET_ID {
            Inbound::DeviceId { motor_id: responder, device_id: data }
        } else if comm_type == COMM_FEEDBACK {
            if data[0] == 0x00 && data[1] == 0xC4 && data[2] == 0x56 {
                let version = [data[3], data[4], data[5], data[6]];
                assert(version@ =~= data@.subrange(3, 7));
                Inbound::Version { motor_id: responder, version }
            } else {
                Inbound::PrivateFeedback(decode_private_feedback(data_area2, &data))
            }
        } else if comm_type == COMM_PARAM_READ {
            Inbound::ParamRead(decode_param_read_response(data_area2, &data))
        } else if comm_type == COMM_FAULT {
            let fault_word = le32(&data, 0);
            Inbound::Faults(decode_faults(fault_word))
        } else if comm_type == COMM_ACTIVE_REPORT {
            Inbound::ReportFeedback(decode_private_feedback(data_area2, &data))
        } else {
            Inbound::Other
        }
    } else {
        Inbound::Other
    }
}

/// Cuts an inbound datagram into its 13-byte frames; trailing bytes that do not fill a frame
/// are dropped.
pub fn split_datagram(packet: &[u8]) -> (r: Vec<[u8; CAN_FRAME_SIZE]>)
    ensures
        r@.len() == packet@.len() / 13,
        forall|k: int|
            0 <= k < r@.len() ==> (#[trigger] r@[k])@ == packet@.subrange(13 * k, 13 * k + 13),
{
    let n = packet.len();
    let count = n / CAN_FRAME_SIZE;
    let mut frames: Vec<[u8; CAN_FRAME_SIZE]> = Vec::new();
    let mut i: usize = 0;
    while i < count
        invariant
            i <= count,
            n == packet@.len(),
            count == packet@.len() / 13,
            frames@.len() == i,
            forall|k: int|
                0 <= k < i ==> (#[trigger] frames@[k])@ == packet@.subrange(13 * k, 13 * k + 13),
        decreases count - i,
    {
        assert(13 * i + 13 <= packet@.len()) by (nonlinear_arith)
            requires
                i < count,
                count == packet@.len() / 13,
        ;
        let offset = i * CAN_FRAME_SIZE;
        let mut frame = [0u8; CAN_FRAME_SIZE];
        let mut j: usize = 0;
        while j < CAN_FRAME_SIZE
            invariant
                j <= CAN_FRAME_SIZE,
                i < count,
                n == packet@.len(),
                count == packet@.len() / 13,
                offset == 13 * i,
                offset + 13 <= packet@.len(),
                frame@.len() == 13,
                forall|m: int| 0 <= m < j ==> frame@[m] == packet@[offset + m],
            decreases CAN_FRAME_SIZE - j,
        {
            frame[j] = packet[offset + j];
            j = j + 1;
        }
        assert(frame@ =~= packet@.subrange(13 * i, 13 * i + 13));
        frames.push(frame);
        i = i + 1;
    }
    frames
}

/// Largest outbound datagram the gateway takes.
pub const MAX_BATCH_BYTES: usize = 650;

/// Why a batch of standard frames was refused.
#[derive(Clone, Copy, Debug, PartialEq, Eq)]
pub enum BatchError {
    /// A frame's payload is not exactly 8 bytes.
    DataLength,
    /// The frames together exceed the datagram bound.
    TooLarge,
}

impl BatchError {
    /// A sentence describing the error.
    pub fn message(&self) -> (r: String)
        ensures
            *self == BatchError::DataLength ==> r@ == "Each CAN frame must have exactly 8 data bytes"@,
            *self == BatchError::TooLarge ==> r@ == "Batch too large (max 650 bytes / 50 frames)"@,
    {
        match self {
            BatchError::DataLength => String::from_str("Each CAN frame must have exactly 8 data bytes"),
            BatchError::TooLarge => String::from_str("Batch too large (max 650 bytes / 50 frames)"),
        }
    }
}

/// The wire image of standard frames, one after the other.
pub open spec fn batch_bytes(frames: Seq<(u16, Vec<u8>)>) -> Seq<u8>
    decreases frames.len(),
{
    if frames.len() == 0 {
        Seq::empty()
    } else {
        batch_bytes(frames.drop_last()) + frame_bytes(
            INFO_STANDARD,
            frames.last().0 as u32,
            frames.last().1@,
        )
    }
}

/// Every frame of the batch carries exactly 8 data bytes.
pub open spec fn all_eight(frames: Seq<(u16, Vec<u8>)>) -> bool {
    forall|k: int| 0 <= k < frames.len() ==> (#[trigger] frames[k]).1@.len() == 8
}

/// Packs standard frames into one outbound datagram. Refused when a payload is not 8 bytes
/// long, else when the datagram would exceed the bound.
pub fn build_batch(frames: &Vec<(u16, Vec<u8>)>) -> (r: Result<Vec<u8>, BatchError>)
    ensures
        !all_eight(frames@) ==> r == Err::<Vec<u8>, BatchError>(BatchError::DataLength),
        all_eight(frames@) && 13 * frames@.len() > MAX_BATCH_BYTES ==> r == Err::<
            Vec<u8>,
            BatchError,
        >(BatchError::TooLarge),
        all_eight(frames@) && 13 * frames@.len() <= MAX_BATCH_BYTES ==> r is Ok && r->Ok_0@
            == batch_bytes(frames@),
{
    let mut packet: Vec<u8> = Vec::new();
    let mut i: usize = 0;
    while i < frames.len()
        invariant
            i <= frames@.len(),
            all_eight(frames@.subrange(0, i as int)),
            packet@ == batch_bytes(frames@.subrange(0, i as int)),
            packet@.len() == 13 * i,
        decreases frames@.len() - i,
    {
        let (can_id, data_vec) = &frames[i];
        if data_vec.len() != 8 {
            assert(!all_eight(frames@)) by {
                assert(frames@[i as int].1@.len() != 8);
            }
            return Err(BatchError::DataLength);
        }
        let mut data = [0u8; 8];
        let mut j: usize = 0;
        while j < 8
            invariant
                j <= 8,
                data_vec@.len() == 8,
                data@.len() == 8,
                forall|m: int| 0 <= m < j ==> data@[m] == data_vec@[m],
            decreases 8 - j,
        {
            data[j] = data_vec[j];
            j = j + 1;
        }
        assert(data@ =~= data_vec@);
        let frame = build_can_frame(*can_id, &data);
        let ghost before = packet@;
        let mut k: usize = 0;
        while k < CAN_FRAME_SIZE
            invariant
                k <= CAN_FRAME_SIZE,
                packet@ == before + frame@.subrange(0, k as int),
            decreases CAN_FRAME_SIZE - k,
        {
            packet.push(frame[k]);
            assert(before + frame@.subrange(0, k + 1) =~= (before + frame@.subrange(0, k as int)).push(
                frame@[k as int],
            ));
            k = k + 1;
        }
        proof {
            let pre = frames@.subrange(0, i + 1);
            assert(pre.drop_last() =~= frames@.subrange(0, i as int));
            assert(pre.last() == frames@[i as int]);
            assert(frame@.subrange(0, 13) =~= frame@);
            assert forall|m: int| 0 <= m < pre.len() implies (#[trigger] pre[m]).1@.len() == 8 by {
                if m < i {
                    assert(pre[m] == frames@.subrange(0, i as int)[m]);
                }
            }
        }
        i = i + 1;
    }
    assert(frames@.subrange(0, frames@.len() as int) =~= frames@);
    if packet.len() > MAX_BATCH_BYTES {
        return Err(BatchError::TooLarge);
    }
    Ok(packet)
}

/// Addresses of the gateway and of the motor link.
#[derive(Clone, Debug)]
pub struct UdpConfig {
    pub gateway_ip: String,
    pub gateway_port: u16,
    pub local_port: u16,
    pub motor_id: u8,
    pub master_id: u8,
}

impl Default for UdpConfig {
    /// Gateway 192.168.0.7:20001, local port 20001, motor 127, host 253.
    fn default() -> (r: Self)
        ensures
            r.gateway_ip@ == "192.168.0.7"@,
            r.gateway_port == 20001,
            r.local_port == 20001,
            r.motor_id == 127,
            r.master_id == 253,
    {
        UdpConfig {
            gateway_ip: String::from_str("192.168.0.7"),
            gateway_port: 20001,
            local_port: 20001,
            motor_id: 127,
            master_id: 253,
        }
    }
}

/// One frame as shown in the traffic log.
#[derive(Clone, Debug)]
pub struct CanFrameLog {
    /// "tx" or "rx".
    pub direction: String,
    pub can_id: u32,
    pub is_extended: bool,
    pub data: Vec<u8>,
    pub timestamp_ms: u64,
}

/// A serial port as listed to the user.
#[derive(Clone, Debug)]
pub struct PortInfo {
    pub name: String,
    pub port_type: String,
}

} // verus!
