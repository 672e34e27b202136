use pasto::monitor::{encode_frame, telemetry_flags, TelemetryFrame, FRAME_LEN, SYNC};

fn frame() -> TelemetryFrame {
    TelemetryFrame {
        time_ms: 0x0403_0201,
        temp_bits: 93.25f32.to_bits(),
        setpoint_bits: 92.0f32.to_bits(),
        power_bits: 0.5f32.to_bits(),
        y_hat_bits: 1.0f32.to_bits(),
        flags: 0b101,
    }
}

#[test]
fn frame_layout_matches_format() {
    let f = frame();
    let buf = encode_frame(&f);
    assert_eq!(buf.len(), FRAME_LEN);
    assert_eq!(buf[0], SYNC);
    assert_eq!(&buf[1..5], &[0x01, 0x02, 0x03, 0x04]);
    assert_eq!(&buf[5..9], &93.25f32.to_le_bytes());
    assert_eq!(&buf[9..13], &92.0f32.to_le_bytes());
    assert_eq!(&buf[13..17], &0.5f32.to_le_bytes());
    assert_eq!(buf[17], 0b101);
    let mut chk = 0u8;
    for b in &buf[1..18] {
        chk ^= b;
    }
    assert_eq!(buf[18], chk);
}

#[test]
fn frame_checksum_cancels_for_receiver() {
    let buf = encode_frame(&frame());
    let mut all = 0u8;
    for b in &buf[1..19] {
        all ^= b;
    }
    assert_eq!(all, 0);
}

#[test]
fn frame_fields_read_back() {
    let f = frame();
    let buf = encode_frame(&f);
    assert_eq!(u32::from_le_bytes([buf[1], buf[2], buf[3], buf[4]]), f.time_ms);
    assert_eq!(f32::from_le_bytes([buf[5], buf[6], buf[7], buf[8]]), 93.25);
    assert_eq!(f32::from_le_bytes([buf[9], buf[10], buf[11], buf[12]]), 92.0);
    assert_eq!(f32::from_le_bytes([buf[13], buf[14], buf[15], buf[16]]), 0.5);
}

#[test]
fn zero_frame_has_zero_checksum() {
    let f = TelemetryFrame {
        time_ms: 0,
        temp_bits: 0,
        setpoint_bits: 0,
        power_bits: 0,
        y_hat_bits: 0,
        flags: 0,
    };
    let buf = encode_frame(&f);
    let mut expected = [0u8; 19];
    expected[0] = 0xAA;
    assert_eq!(buf, expected);
}

#[test]
fn flags_bits() {
    assert_eq!(telemetry_flags(false, false, false), 0);
    assert_eq!(telemetry_flags(true, false, false), 1);
    assert_eq!(telemetry_flags(false, true, false), 2);
    assert_eq!(telemetry_flags(false, false, true), 4);
    assert_eq!(telemetry_flags(true, true, true), 7);
    assert_eq!(telemetry_flags(true, false, true), 5);
}
