use mbot::protocol::buzzer_cmd;
use mbot::protocol::encoder_motor_cmd;
use mbot::protocol::led_cmd;
use mbot::protocol::motor_cmd;
use mbot::protocol::parse_ultrasonic_response;
use mbot::protocol::read_gyro_cmd;
use mbot::protocol::read_quad_rgb_cmd;
use mbot::protocol::read_ultrasonic_cmd;
use mbot::protocol::servo_cmd;
use mbot::protocol::DEVICE_DC_MOTOR;
use mbot::protocol::DEVICE_GYRO;
use mbot::protocol::DEVICE_QUAD_RGB;
use mbot::protocol::DEVICE_RGBLED;
use mbot::protocol::DEVICE_SERVO;

#[test]
fn test_motor_cmd() {
    let cmd = motor_cmd(50, 50);
    assert_eq!(cmd[0], 0xff);
    assert_eq!(cmd[1], 0x55);
    assert_eq!(cmd[5], DEVICE_DC_MOTOR);
    assert_eq!(cmd[7], 50);
    assert_eq!(cmd[8], 50);
}

#[test]
fn test_led_cmd() {
    let cmd = led_cmd([255, 0, 0]); // Red
    assert_eq!(cmd[0], 0xff);
    assert_eq!(cmd[1], 0x55);
    assert_eq!(cmd[5], DEVICE_RGBLED);
    assert_eq!(cmd[9], 255);
    assert_eq!(cmd[10], 0);
    assert_eq!(cmd[11], 0);
}

#[test]
fn test_servo_cmd() {
    let cmd = servo_cmd(1, 90);
    assert_eq!(cmd[0], 0xff);
    assert_eq!(cmd[1], 0x55);
    assert_eq!(cmd[5], DEVICE_SERVO);
    assert_eq!(cmd[6], 1);
    assert_eq!(cmd[7], 90);
}

#[test]
fn test_parse_ultrasonic() {
    // Simulate response: 25.5 cm
    let distance: f32 = 25.5;
    let bytes = distance.to_le_bytes();
    let response = vec![0xff, 0x55, 0x00, 0x02, bytes[0], bytes[1], bytes[2], bytes[3]];

    let parsed = parse_ultrasonic_response(&response);
    assert!(parsed.is_some());
    assert!((f32::from_bits(parsed.unwrap()) - 25.5).abs() < 0.01);
}

#[test]
fn test_parse_ultrasonic_rejects_bad_frames() {
    // Too short for any frame.
    assert!(parse_ultrasonic_response(&vec![0xff, 0x55, 0x00]).is_none());
    // Wrong header.
    assert!(parse_ultrasonic_response(&vec![0xfe, 0x55, 0x00, 0x02, 1, 2, 3, 4]).is_none());
    // Right header but not a float response type.
    assert!(parse_ultrasonic_response(&vec![0xff, 0x55, 0x00, 0x01, 1, 2, 3, 4]).is_none());
    // Float type but payload cut short.
    assert!(parse_ultrasonic_response(&vec![0xff, 0x55, 0x00, 0x02, 1]).is_none());
}

#[test]
fn test_parse_ultrasonic_is_little_endian() {
    let response = vec![0xff, 0x55, 0x00, 0x02, 0x01, 0x02, 0x03, 0x04];
    assert_eq!(parse_ultrasonic_response(&response), Some(0x0403_0201));
}

#[test]
fn test_read_cmds() {
    let us = read_ultrasonic_cmd();
    assert_eq!(us, vec![0xff, 0x55, 0x04, 0x00, 0x01, 0x01, 0x03]);

    let gy = read_gyro_cmd(3);
    assert_eq!(gy[0], 0xff);
    assert_eq!(gy[1], 0x55);
    assert_eq!(gy[5], DEVICE_GYRO);
    assert_eq!(gy[7], 3);

    let qr = read_quad_rgb_cmd();
    assert_eq!(qr[5], DEVICE_QUAD_RGB);
    assert_eq!(qr[6], 0x01);
}

#[test]
fn test_encoder_motor_cmd_without_position() {
    let cmd = encoder_motor_cmd(1, -2, None);
    assert_eq!(cmd.len(), 10);
    // Length byte counts everything after it.
    assert_eq!(cmd[2] as usize, cmd.len() - 3);
    // -2 as little-endian two's complement.
    assert_eq!(cmd[8], 0xfe);
    assert_eq!(cmd[9], 0xff);
}

#[test]
fn test_encoder_motor_cmd_with_position() {
    let cmd = encoder_motor_cmd(2, 300, Some(0x0102_0304));
    assert_eq!(cmd.len(), 14);
    assert_eq!(cmd[2] as usize, cmd.len() - 3);
    assert_eq!(cmd[6], 2);
    // 300 = 0x012c little-endian.
    assert_eq!(cmd[8], 0x2c);
    assert_eq!(cmd[9], 0x01);
    // Position little-endian.
    assert_eq!(cmd[10], 0x04);
    assert_eq!(cmd[11], 0x03);
    assert_eq!(cmd[12], 0x02);
    assert_eq!(cmd[13], 0x01);
}

#[test]
fn test_buzzer_cmd_little_endian() {
    let cmd = buzzer_cmd(440, 500);
    // 440 = 0x01b8, 500 = 0x01f4, both little-endian.
    assert_eq!(cmd[6], 0xb8);
    assert_eq!(cmd[7], 0x01);
    assert_eq!(cmd[8], 0xf4);
    assert_eq!(cmd[9], 0x01);
}
