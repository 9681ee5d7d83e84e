use motorlink::can::{
    build_can_frame, build_ext_can_frame, is_extended_data_frame, is_standard_data_frame,
    make_can_id, make_ext_can_id, parse_can_frame, parse_ext_can_id,
};
use motorlink::faults::decode_faults;
use motorlink::mit::{
    cmd_change_master_id, cmd_change_motor_id, cmd_change_protocol, cmd_clear_or_read_fault,
    cmd_enable, cmd_position, cmd_set_mode, cmd_set_zero, cmd_speed, cmd_stop, decode_feedback,
    pack_mit_params,
};
use motorlink::params::{readonly_params, writable_params, ParamAccess, ParamType};
use motorlink::private::{
    decode_param_read_response, decode_private_feedback, priv_cmd_active_report,
    priv_cmd_change_baud, priv_cmd_change_protocol, priv_cmd_enable, priv_cmd_fault_feedback,
    priv_cmd_get_device_id, priv_cmd_param_read, priv_cmd_param_write, priv_cmd_param_write_f32,
    priv_cmd_param_write_u16, priv_cmd_param_write_u32, priv_cmd_param_write_u8,
    priv_cmd_read_version, priv_cmd_save_params, priv_cmd_set_can_id, priv_cmd_set_zero,
    priv_cmd_stop,
};

const P_MIN: f32 = -12.57;
const P_MAX: f32 = 12.57;
const V_MIN: f32 = -33.0;
const V_MAX: f32 = 33.0;
const T_MIN: f32 = -14.0;
const T_MAX: f32 = 14.0;

fn uint_to_float(x_int: u32, x_min: f32, x_max: f32, bits: u32) -> f32 {
    (x_int as f32) * (x_max - x_min) / (((1u32 << bits) - 1) as f32) + x_min
}

#[test]
fn test_cmd_enable() {
    let data = cmd_enable();
    assert_eq!(data, [0xFF, 0xFF, 0xFF, 0xFF, 0xFF, 0xFF, 0xFF, 0xFC]);
}

#[test]
fn test_cmd_stop() {
    let data = cmd_stop();
    assert_eq!(data, [0xFF, 0xFF, 0xFF, 0xFF, 0xFF, 0xFF, 0xFF, 0xFD]);
}

#[test]
fn test_cmd_set_mode_vs_enable_distinction() {
    let enable = cmd_enable();
    let mode = cmd_set_mode(0);
    assert_eq!(enable[7], mode[7]);
    assert_ne!(enable[6], mode[6]);
}

#[test]
fn test_cmd_stop_vs_change_protocol_distinction() {
    let stop = cmd_stop();
    let proto = cmd_change_protocol(2);
    assert_eq!(stop[7], proto[7]);
    assert_ne!(stop[6], proto[6]);
}

#[test]
fn test_decode_feedback() {
    let angle_u: u16 = 32767;
    let vel_u: u16 = 2048;
    let torq_u: u16 = 2048;
    let temp_u: u16 = 250;

    let mut data = [0u8; 8];
    data[0] = 1;
    data[1] = (angle_u >> 8) as u8;
    data[2] = (angle_u & 0xFF) as u8;
    data[3] = (vel_u >> 4) as u8;
    data[4] = ((vel_u & 0xF) << 4) as u8 | ((torq_u >> 8) & 0xF) as u8;
    data[5] = (torq_u & 0xFF) as u8;
    data[6] = (temp_u >> 8) as u8;
    data[7] = (temp_u & 0xFF) as u8;

    let fb = decode_feedback(&data);
    assert_eq!(fb.motor_id, 1);
    let angle = uint_to_float(fb.angle as u32, P_MIN, P_MAX, 16);
    let velocity = uint_to_float(fb.velocity as u32, V_MIN, V_MAX, 12);
    let torque = uint_to_float(fb.torque as u32, T_MIN, T_MAX, 12);
    let temperature = fb.temperature as f32 / 10.0;
    assert!(angle.abs() < 0.01);
    assert!(velocity.abs() < 0.05);
    assert!(torque.abs() < 0.05);
    assert!((temperature - 25.0).abs() < 0.01);
}

#[test]
fn decode_feedback_raw_fields() {
    let fb = decode_feedback(&[7, 0x12, 0x34, 0xAB, 0xCD, 0xEF, 0x01, 0x02]);
    assert_eq!(fb.motor_id, 7);
    assert_eq!(fb.angle, 0x1234);
    assert_eq!(fb.velocity, 0xABC);
    assert_eq!(fb.torque, 0xDEF);
    assert_eq!(fb.temperature, 0x0102);
}

#[test]
fn test_decode_faults() {
    let fs = decode_faults(0b00000000_00000101);
    assert_eq!(fs.raw, 5);
    assert_eq!(fs.faults.len(), 2);
    assert!(fs.faults.iter().any(|f| f.contains("Over-temperature")));
    assert!(fs.faults.iter().any(|f| f.contains("Under-voltage")));
}

#[test]
fn decode_faults_keeps_table_order_and_ignores_unknown_bits() {
    let fs = decode_faults(0b101);
    assert_eq!(fs.faults, vec!["Over-temperature (>145\u{b0}C)".to_string(), "Under-voltage (<12V)".to_string()]);
    let fs = decode_faults((1 << 16) | (1 << 14) | (1 << 6) | (1 << 31));
    assert_eq!(fs.faults, vec!["Stall overload protection".to_string(), "Phase A overcurrent".to_string()]);
    assert_eq!(decode_faults(0).faults.len(), 0);
    assert_eq!(decode_faults(u32::MAX).faults.len(), 11);
}

#[test]
fn test_build_can_frame_standard() {
    let can_id = make_can_id(0, 1);
    let data = cmd_enable();
    let frame = build_can_frame(can_id, &data);
    assert_eq!(frame[0], 0x08);
    assert_eq!(frame[1], 0x00);
    assert_eq!(frame[2], 0x00);
    assert_eq!(frame[3], 0x00);
    assert_eq!(frame[4], 0x01);
    assert_eq!(&frame[5..13], &data);
}

#[test]
fn test_parse_can_frame_roundtrip() {
    let can_id = make_can_id(1, 5);
    let data = cmd_position(1.0f32.to_bits(), 2.0f32.to_bits());
    let frame = build_can_frame(can_id, &data);
    let (info, parsed_id, parsed_data) = parse_can_frame(&frame);
    assert_eq!(info, 0x08);
    assert_eq!(parsed_id, 0x105);
    assert_eq!(parsed_data, data);
}

#[test]
fn test_build_ext_can_frame() {
    let ext_id = make_ext_can_id(0x12, 0x00FD, 0x01);
    let data = [0x1E, 0x70, 0x00, 0x00, 0x00, 0x00, 0xF0, 0x41];
    let frame = build_ext_can_frame(ext_id, &data);
    assert_eq!(frame[0], 0x88);
    assert_eq!(frame[1], 0x12);
    assert_eq!(frame[2], 0x00);
    assert_eq!(frame[3], 0xFD);
    assert_eq!(frame[4], 0x01);
    assert_eq!(&frame[5..13], &data);
}

#[test]
fn test_ext_can_id_roundtrip() {
    let ext_id = make_ext_can_id(0x12, 0x00FD, 0x7F);
    let (comm_type, data_area2, target_id) = parse_ext_can_id(ext_id);
    assert_eq!(comm_type, 0x12);
    assert_eq!(data_area2, 0x00FD);
    assert_eq!(target_id, 0x7F);
}

#[test]
fn frame_round_trips_at_the_extremes() {
    let data = [1, 2, 3, 4, 5, 6, 7, 8];
    let (info, id, back) = parse_can_frame(&build_can_frame(0x7FF, &data));
    assert_eq!((info, id, back), (0x08, 0x7FF, data));
    let (info, id, back) = parse_can_frame(&build_ext_can_frame(0x1FFF_FFFF, &data));
    assert_eq!((info, id, back), (0x88, 0x1FFF_FFFF, data));
    let frame = build_ext_can_frame(0x1234_5678, &data);
    assert_eq!(&frame[1..5], &[0x12, 0x34, 0x56, 0x78]);
}

#[test]
fn ext_id_round_trips_for_every_command_type() {
    for t in 0..32u8 {
        assert_eq!(parse_ext_can_id(make_ext_can_id(t, 0xBEEF, 0x42)), (t, 0xBEEF, 0x42));
    }
    // The command type keeps its five low bits only.
    assert_eq!(make_ext_can_id(0x21, 0, 0), 0x0100_0000);
    assert_eq!(make_can_id(7, 0xFF), 0x7FF);
}

#[test]
fn frame_kinds_by_info_byte() {
    assert!(is_standard_data_frame(0x08));
    assert!(!is_extended_data_frame(0x08));
    assert!(is_extended_data_frame(0x88));
    assert!(!is_standard_data_frame(0x88));
    assert!(!is_standard_data_frame(0x48));
    assert!(!is_extended_data_frame(0x48));
    assert!(!is_extended_data_frame(0xC8));
}

#[test]
fn sentinel_commands() {
    assert_eq!(cmd_set_zero(), [0xFF, 0xFF, 0xFF, 0xFF, 0xFF, 0xFF, 0xFF, 0xFE]);
    assert_eq!(cmd_clear_or_read_fault(0xFF), [0xFF, 0xFF, 0xFF, 0xFF, 0xFF, 0xFF, 0xFF, 0xFB]);
    assert_eq!(cmd_clear_or_read_fault(0), [0xFF, 0xFF, 0xFF, 0xFF, 0xFF, 0xFF, 0x00, 0xFB]);
    assert_eq!(cmd_set_mode(2), [0xFF, 0xFF, 0xFF, 0xFF, 0xFF, 0xFF, 0x02, 0xFC]);
    assert_eq!(cmd_change_motor_id(9), [0xFF, 0xFF, 0xFF, 0xFF, 0xFF, 0xFF, 0x09, 0xFA]);
    assert_eq!(cmd_change_protocol(1), [0xFF, 0xFF, 0xFF, 0xFF, 0xFF, 0xFF, 0x01, 0xFD]);
    assert_eq!(cmd_change_master_id(0x33), [0xFF, 0xFF, 0xFF, 0xFF, 0xFF, 0xFF, 0xFD, 0x33]);
}

#[test]
fn test_position_cmd_le_bytes() {
    let data = cmd_position(5.0f32.to_bits(), 5.0f32.to_bits());
    assert_eq!(data, [0x00, 0x00, 0xA0, 0x40, 0x00, 0x00, 0xA0, 0x40]);
}

#[test]
fn speed_command_layout() {
    let data = cmd_speed(1.0f32.to_bits(), 0x1122_3344);
    assert_eq!(data, [0x00, 0x00, 0x80, 0x3F, 0x44, 0x33, 0x22, 0x11]);
}

#[test]
fn mit_params_packing() {
    let data = pack_mit_params(0x1234, 0xABC, 0xDEF, 0x123, 0x456);
    assert_eq!(data, [0x12, 0x34, 0xAB, 0xCD, 0xEF, 0x12, 0x34, 0x56]);
    assert_eq!(pack_mit_params(0xFFFF, 0xFFF, 0xFFF, 0xFFF, 0xFFF), [0xFF; 8]);
    assert_eq!(pack_mit_params(0, 0, 0, 0, 0), [0; 8]);
}

#[test]
fn test_priv_cmd_param_write_f32() {
    let (ext_id, data) = priv_cmd_param_write_f32(0xFD, 0x01, 0x701E, 30.0f32.to_bits());
    let (comm_type, _, target_id) = parse_ext_can_id(ext_id);
    assert_eq!(comm_type, 0x12);
    assert_eq!(target_id, 0x01);
    assert_eq!(data[0], 0x1E);
    assert_eq!(data[1], 0x70);
    let val = f32::from_le_bytes([data[4], data[5], data[6], data[7]]);
    assert!((val - 30.0).abs() < 0.001);
}

#[test]
fn test_priv_cmd_param_read() {
    let (ext_id, data) = priv_cmd_param_read(0xFD, 0x7F, 0x701E);
    let (comm_type, data_area2, target_id) = parse_ext_can_id(ext_id);
    assert_eq!(comm_type, 0x11);
    assert_eq!(target_id, 0x7F);
    assert_eq!((data_area2 >> 8) & 0xFF, 0xFD);
    assert_eq!(data[0], 0x1E);
    assert_eq!(data[1], 0x70);
}

#[test]
fn test_decode_param_read_response() {
    let data_area2: u16 = 0x007F;
    let val_bytes = 30.0_f32.to_le_bytes();
    let data = [0x1E, 0x70, 0x00, 0x00, val_bytes[0], val_bytes[1], val_bytes[2], val_bytes[3]];
    let resp = decode_param_read_response(data_area2, &data);
    assert_eq!(resp.index, 0x701E);
    assert!(resp.success);
    assert!((f32::from_bits(resp.value_u32) - 30.0).abs() < 0.001);
}

#[test]
fn param_write_then_read_back_recovers_the_value() {
    for v in [0.0f32, -1.5, 30.0, f32::MAX, f32::MIN_POSITIVE] {
        let (_, data) = priv_cmd_param_write_f32(0xFD, 0x01, 0x7016, v.to_bits());
        assert_eq!(&data[0..2], &0x7016u16.to_le_bytes());
        let resp = decode_param_read_response(0x0001, &data);
        assert_eq!(resp.index, 0x7016);
        assert_eq!(f32::from_bits(resp.value_u32), v);
        assert_eq!(resp.value_bytes, v.to_le_bytes());
    }
    let resp = decode_param_read_response(0x0101, &[0; 8]);
    assert!(!resp.success);
}

#[test]
fn extended_requests() {
    let (id, data) = priv_cmd_get_device_id(0xFD, 0x7F);
    assert_eq!((id, data), (0x00FD_007F, [0; 8]));
    let (id, data) = priv_cmd_enable(0xFD, 0x01);
    assert_eq!((id, data), (0x03FD_0001, [0; 8]));
    let (id, data) = priv_cmd_stop(0xFD, 0x01, true);
    assert_eq!((id, data), (0x04FD_0001, [1, 0, 0, 0, 0, 0, 0, 0]));
    let (_, data) = priv_cmd_stop(0xFD, 0x01, false);
    assert_eq!(data, [0; 8]);
    let (id, data) = priv_cmd_set_zero(0xFD, 0x01);
    assert_eq!((id, data), (0x06FD_0001, [1, 0, 0, 0, 0, 0, 0, 0]));
    let (id, data) = priv_cmd_set_can_id(0xFD, 0x01, 0x05);
    assert_eq!((id, data), (0x0705_FD01, [0; 8]));
    let (id, data) = priv_cmd_fault_feedback(0xFD, 0x01);
    assert_eq!((id, data), (0x15FD_0001, [0; 8]));
    let (id, data) = priv_cmd_save_params(0xFD, 0x01);
    assert_eq!((id, data), (0x16FD_0001, [1, 2, 3, 4, 5, 6, 7, 8]));
    let (id, data) = priv_cmd_change_baud(0xFD, 0x01, 2);
    assert_eq!((id, data), (0x17FD_0001, [1, 2, 3, 4, 5, 6, 2, 0]));
    let (id, data) = priv_cmd_active_report(0xFD, 0x01, 1);
    assert_eq!((id, data), (0x18FD_0001, [1, 2, 3, 4, 5, 6, 1, 0]));
    let (id, data) = priv_cmd_change_protocol(0xFD, 0x01, 2);
    assert_eq!((id, data), (0x19FD_0001, [1, 2, 3, 4, 5, 6, 2, 0]));
    let (id, data) = priv_cmd_read_version(0xFD, 0x01);
    assert_eq!((id, data), (0x04FD_0001, [0x00, 0xC4, 0, 0, 0, 0, 0, 0]));
}

#[test]
fn typed_parameter_writes() {
    let (_, d) = priv_cmd_param_write_u8(0xFD, 1, 0x7005, 2);
    assert_eq!(d, [0x05, 0x70, 0, 0, 2, 0, 0, 0]);
    let (_, d) = priv_cmd_param_write_u16(0xFD, 1, 0x7026, 0x0102);
    assert_eq!(d, [0x26, 0x70, 0, 0, 0x02, 0x01, 0, 0]);
    let (_, d) = priv_cmd_param_write_u32(0xFD, 1, 0x7028, 20000);
    assert_eq!(d, [0x28, 0x70, 0, 0, 0x20, 0x4E, 0, 0]);
    let (id, d) = priv_cmd_param_write(0xFD, 1, 0x7005, ParamType::U8, 0x1FF).unwrap();
    assert_eq!((id, d), (0x12FD_0001, [0x05, 0x70, 0, 0, 0xFF, 0, 0, 0]));
    let (_, d) = priv_cmd_param_write(0xFD, 1, 0x3005, ParamType::I16, (-2i16) as u16 as u32).unwrap();
    assert_eq!(d, [0x05, 0x30, 0, 0, 0xFE, 0xFF, 0, 0]);
    let (_, d) = priv_cmd_param_write(0xFD, 1, 0x700B, ParamType::F32, 14.0f32.to_bits()).unwrap();
    assert_eq!(d, [0x0B, 0x70, 0, 0, 0x00, 0x00, 0x60, 0x41]);
    assert!(priv_cmd_param_write(0xFD, 1, 0x7000, ParamType::Str, 0).is_none());
}

#[test]
fn private_feedback_fields() {
    let fb = decode_private_feedback(0xBF7F, &[0x80, 0x00, 0x7F, 0xFF, 0x12, 0x34, 0x00, 0xFA]);
    assert_eq!(fb.motor_id, 0x7F);
    assert_eq!(fb.fault_bits, 0x3F);
    assert_eq!(fb.mode_status, 2);
    assert_eq!(fb.angle, 0x8000);
    assert_eq!(fb.velocity, 0x7FFF);
    assert_eq!(fb.torque, 0x1234);
    assert_eq!(fb.temperature, 250);
}

#[test]
fn parameter_tables() {
    let w = writable_params();
    let r = readonly_params();
    assert_eq!(w.len(), 22);
    assert_eq!(r.len(), 11);
    assert!(w.windows(2).all(|p| p[0].index < p[1].index));
    assert!(r.windows(2).all(|p| p[0].index < p[1].index));
    assert!(w.iter().all(|p| p.access == ParamAccess::RW && p.index >= 0x7000));
    assert!(r.iter().all(|p| p.access == ParamAccess::R && p.index >= 0x3000 && p.index < 0x7000));
    let loc_kp = w.iter().find(|p| p.name == "loc_kp").unwrap();
    assert_eq!((loc_kp.index, loc_kp.param_type, loc_kp.default_str), (0x701E, ParamType::F32, "30"));
    assert_eq!(r[9].name, "faultSta");
    assert_eq!(r[9].param_type, ParamType::U32);
}

#[test]
fn feedback_temperature_is_signed_tenths() {
    let fb = decode_feedback(&[1, 0, 0, 0, 0, 0, 0xFF, 0x9C]);
    assert_eq!(fb.temperature, -100);
    let fb = decode_feedback(&[1, 0, 0, 0, 0, 0, 0x7F, 0xFF]);
    assert_eq!(fb.temperature, 0x7FFF);
    let fb = decode_feedback(&[1, 0, 0, 0, 0, 0, 0x80, 0x00]);
    assert_eq!(fb.temperature, i16::MIN);
}

#[test]
fn parameter_catalog_strings() {
    let w = writable_params();
    assert_eq!((w[0].name, w[0].desc, w[0].default_str), ("run_mode", "Run mode (0=MIT,1=PP,2=Speed,3=Current,5=CSP)", "0"));
    assert_eq!((w[21].name, w[21].desc, w[21].default_str), ("add_offset", "Zero offset (rad)", "0"));
    assert_eq!((w[5].name, w[5].default_str), ("cur_ki", "0.0158"));
    let r = readonly_params();
    assert_eq!((r[0].name, r[0].desc, r[0].default_str), ("mcuTemp", "MCU temperature (*10)", ""));
    assert_eq!((r[10].name, r[10].desc), ("torque_fdb", "Torque feedback (N.m)"));
}
