use motorlink::can::{build_can_frame, build_ext_can_frame, make_can_id, make_ext_can_id};
use motorlink::link::{build_batch, classify_frame, split_datagram, BatchError, Inbound, UdpConfig};
use motorlink::mit::cmd_enable;

#[test]
fn standard_feedback_for_the_host_is_decoded() {
    let data = [0x7F, 0x80, 0x00, 0x80, 0x08, 0x00, 0x00, 0xFA];
    let frame = build_can_frame(make_can_id(0, 0xFD), &data);
    match classify_frame(&frame, 0xFD) {
        Inbound::Feedback(fb) => {
            assert_eq!(fb.motor_id, 0x7F);
            assert_eq!(fb.angle, 0x8000);
            assert_eq!(fb.velocity, 0x800);
            assert_eq!(fb.torque, 0x800);
            assert_eq!(fb.temperature, 250);
        }
        other => panic!("unexpected {:?}", other),
    }
    // Another address, or another mode: not for us.
    assert!(matches!(classify_frame(&frame, 0xFC), Inbound::Other));
    let frame = build_can_frame(make_can_id(1, 0xFD), &data);
    assert!(matches!(classify_frame(&frame, 0xFD), Inbound::Other));
}

#[test]
fn extended_replies_are_told_apart() {
    let id = [0x11, 0x22, 0x33, 0x44, 0x55, 0x66, 0x77, 0x88];
    let frame = build_ext_can_frame(make_ext_can_id(0, 0x0005, 0xFD), &id);
    match classify_frame(&frame, 0xFD) {
        Inbound::DeviceId { motor_id, device_id } => {
            assert_eq!(motor_id, 5);
            assert_eq!(device_id, id);
        }
        other => panic!("unexpected {:?}", other),
    }

    let frame = build_ext_can_frame(make_ext_can_id(2, 0x8005, 0xFD), &[0x00, 0xC4, 0x56, 0, 0, 3, 22, 9]);
    match classify_frame(&frame, 0xFD) {
        Inbound::Version { motor_id, version } => {
            assert_eq!(motor_id, 5);
            assert_eq!(version, [0, 0, 3, 22]);
        }
        other => panic!("unexpected {:?}", other),
    }

    let payload = [0x80, 0x00, 0x80, 0x00, 0x80, 0x00, 0x01, 0x00];
    let frame = build_ext_can_frame(make_ext_can_id(2, 0x8105, 0xFD), &payload);
    match classify_frame(&frame, 0xFD) {
        Inbound::PrivateFeedback(fb) => {
            assert_eq!((fb.motor_id, fb.fault_bits, fb.mode_status), (5, 1, 2));
            assert_eq!((fb.angle, fb.velocity, fb.torque, fb.temperature), (0x8000, 0x8000, 0x8000, 256));
        }
        other => panic!("unexpected {:?}", other),
    }
    let frame = build_ext_can_frame(make_ext_can_id(0x18, 0x8105, 0xFD), &payload);
    assert!(matches!(classify_frame(&frame, 0xFD), Inbound::ReportFeedback(fb) if fb.motor_id == 5));

    let frame = build_ext_can_frame(make_ext_can_id(0x11, 0x0005, 0xFD), &[0x1E, 0x70, 0, 0, 0, 0, 0xF0, 0x41]);
    match classify_frame(&frame, 0xFD) {
        Inbound::ParamRead(r) => {
            assert_eq!(r.index, 0x701E);
            assert!(r.success);
            assert_eq!(f32::from_bits(r.value_u32), 30.0);
        }
        other => panic!("unexpected {:?}", other),
    }

    let frame = build_ext_can_frame(make_ext_can_id(0x15, 0x0005, 0xFD), &[0x05, 0, 0, 0, 0, 0, 0, 0]);
    match classify_frame(&frame, 0xFD) {
        Inbound::Faults(f) => {
            assert_eq!(f.raw, 5);
            assert_eq!(f.faults.len(), 2);
        }
        other => panic!("unexpected {:?}", other),
    }

    let frame = build_ext_can_frame(make_ext_can_id(4, 0x0005, 0xFD), &[0; 8]);
    assert!(matches!(classify_frame(&frame, 0xFD), Inbound::Other));
}

#[test]
fn remote_frames_are_ignored() {
    let mut frame = build_can_frame(make_can_id(0, 0xFD), &[0; 8]);
    frame[0] = 0x48;
    assert!(matches!(classify_frame(&frame, 0xFD), Inbound::Other));
    frame[0] = 0xC8;
    assert!(matches!(classify_frame(&frame, 0xFD), Inbound::Other));
}

#[test]
fn datagrams_split_into_frames() {
    let a = build_can_frame(0x101, &[1; 8]);
    let b = build_ext_can_frame(0x1200_FD01, &[2; 8]);
    let mut packet = a.to_vec();
    packet.extend_from_slice(&b);
    packet.extend_from_slice(&[9, 9, 9]);
    let frames = split_datagram(&packet);
    assert_eq!(frames, vec![a, b]);
    assert!(split_datagram(&[0; 12]).is_empty());
}

#[test]
fn batch_concatenates_frames() {
    let frames = vec![(0x001u16, cmd_enable().to_vec()), (0x102u16, vec![1, 2, 3, 4, 5, 6, 7, 8])];
    let packet = build_batch(&frames).unwrap();
    let mut expected = build_can_frame(0x001, &cmd_enable()).to_vec();
    expected.extend_from_slice(&build_can_frame(0x102, &[1, 2, 3, 4, 5, 6, 7, 8]));
    assert_eq!(packet, expected);
    assert_eq!(build_batch(&Vec::new()).unwrap(), Vec::<u8>::new());
}

#[test]
fn batch_rejects_wrong_payload_length() {
    let frames = vec![(0x001u16, vec![0; 8]), (0x002u16, vec![0; 7])];
    assert_eq!(build_batch(&frames), Err(BatchError::DataLength));
    let many: Vec<(u16, Vec<u8>)> = (0..60).map(|k| (k as u16, vec![0; if k == 59 { 9 } else { 8 }])).collect();
    assert_eq!(build_batch(&many), Err(BatchError::DataLength));
    assert_eq!(BatchError::DataLength.message(), "Each CAN frame must have exactly 8 data bytes");
}

#[test]
fn batch_rejects_oversized_datagram() {
    let fifty: Vec<(u16, Vec<u8>)> = (0..50).map(|k| (k as u16, vec![0; 8])).collect();
    assert_eq!(build_batch(&fifty).unwrap().len(), 650);
    let fifty_one: Vec<(u16, Vec<u8>)> = (0..51).map(|k| (k as u16, vec![0; 8])).collect();
    assert_eq!(build_batch(&fifty_one), Err(BatchError::TooLarge));
    assert_eq!(BatchError::TooLarge.message(), "Batch too large (max 650 bytes / 50 frames)");
}

#[test]
fn default_link_configuration() {
    let c = UdpConfig::default();
    assert_eq!(c.gateway_ip, "192.168.0.7");
    assert_eq!((c.gateway_port, c.local_port, c.motor_id, c.master_id), (20001, 20001, 127, 253));
}
