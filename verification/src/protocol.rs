//! The hardware wire protocol: byte-exact command frames toward the
//! robot and the parse of its sensor responses.
//!
//! Every frame opens with the fixed two-byte header, then a length byte
//! (the byte count after it), an index byte for response matching, an
//! action code, a device identifier, and device-specific payload bytes;
//! multi-byte payload values are little-endian.

use vstd::prelude::*;

verus! {

use vstd::arithmetic::div_mod::lemma_fundamental_div_mod;
use vstd::arithmetic::div_mod::lemma_mod_bound;

/// First header byte of every frame.
pub const HEADER_0: u8 = 0xff;

/// Second header byte of every frame.
pub const HEADER_1: u8 = 0x55;

/// Action code of a sensor read.
pub const ACTION_GET: u8 = 0x01;

/// Action code of an actuator run.
pub const ACTION_RUN: u8 = 0x02;

/// Device identifier of the ultrasonic ranger.
pub const DEVICE_ULTRASONIC: u8 = 0x01;

/// Device identifier of the gyroscope.
pub const DEVICE_GYRO: u8 = 0x06;

/// Device identifier of the plain DC motor pair.
pub const DEVICE_DC_MOTOR: u8 = 0x0a;

/// Device identifier of an encoder motor.
pub const DEVICE_ENCODER_MOTOR: u8 = 0x3d;

/// Device identifier of the pen servo.
pub const DEVICE_SERVO: u8 = 0x0b;

/// Device identifier of the onboard RGB LEDs.
pub const DEVICE_RGBLED: u8 = 0x08;

/// Device identifier of the buzzer.
pub const DEVICE_BUZZER: u8 = 0x22;

/// Device identifier of the quad reflectance sensor.
pub const DEVICE_QUAD_RGB: u8 = 0x41;

/// Build the ultrasonic read frame: a GET on the ranger's default port.
pub fn read_ultrasonic_cmd() -> (r: Vec<u8>)
    ensures
        r@ == seq![HEADER_0, HEADER_1, 0x04u8, 0x00u8, ACTION_GET, DEVICE_ULTRASONIC, 0x03u8],
{
    let r = vec![HEADER_0, HEADER_1, 0x04u8, 0x00u8, ACTION_GET, DEVICE_ULTRASONIC, 0x03u8];
    proof {
        assert(r@ =~= seq![
            HEADER_0,
            HEADER_1,
            0x04u8,
            0x00u8,
            ACTION_GET,
            DEVICE_ULTRASONIC,
            0x03u8,
        ]);
    }
    r
}

/// Whether a byte buffer is a well-formed float sensor response: long
/// enough, opening with the frame header, and marked with the float
/// response type (which brings four payload bytes).
pub open spec fn is_float_response(data: Seq<u8>) -> bool {
    &&& data.len() >= 8
    &&& data[0] == HEADER_0
    &&& data[1] == HEADER_1
    &&& data[3] == 0x02u8
}

/// The little-endian 32-bit value of four bytes.
pub open spec fn le_u32(b0: u8, b1: u8, b2: u8, b3: u8) -> int {
    b0 + 256 * b1 + 65_536 * b2 + 16_777_216 * b3
}

/// Parse an ultrasonic response frame.
///
/// Returns the bit pattern of the little-endian 32-bit float payload
/// exactly when the buffer is a well-formed float response (the caller
/// turns the bits into its float type); `None` on anything else.
pub fn parse_ultrasonic_response(data: &Vec<u8>) -> (r: Option<u32>)
    ensures
        r is Some <==> is_float_response(data@),
        r matches Some(bits) ==> bits == le_u32(data@[4], data@[5], data@[6], data@[7]),
{
    if data.len() < 5 {
        return None;
    }
    if data[0] != HEADER_0 || data[1] != HEADER_1 {
        return None;
    }
    if data[3] == 0x02 && data.len() >= 8 {
        let bits = (data[4] as u32) + 256 * (data[5] as u32) + 65_536 * (data[6] as u32)
            + 16_777_216 * (data[7] as u32);
        Some(bits)
    } else {
        None
    }
}

/// Build the frame that runs both plain DC motors at the given powers;
/// each power byte is the two's-complement image of its signed value.
pub fn motor_cmd(left: i8, right: i8) -> (r: Vec<u8>)
    ensures
        r@ == seq![
            HEADER_0,
            HEADER_1,
            0x08u8,
            0x00u8,
            ACTION_RUN,
            DEVICE_DC_MOTOR,
            0x00u8,
            left as u8,
            right as u8,
        ],
{
    let r = vec![
        HEADER_0,
        HEADER_1,
        0x08u8,
        0x00u8,
        ACTION_RUN,
        DEVICE_DC_MOTOR,
        0x00u8,
        left as u8,
        right as u8,
    ];
    proof {
        assert(r@ =~= seq![
            HEADER_0,
            HEADER_1,
            0x08u8,
            0x00u8,
            ACTION_RUN,
            DEVICE_DC_MOTOR,
            0x00u8,
            left as u8,
            right as u8,
        ]);
    }
    r
}

/// Build the frame that runs one encoder motor: port, slot, a
/// little-endian 16-bit speed, and optionally a little-endian 32-bit
/// target position; the length byte counts everything after it.
pub fn encoder_motor_cmd(port: u8, speed: i16, position: Option<i32>) -> (r: Vec<u8>)
    ensures
        position is None ==> r@ == seq![
            HEADER_0,
            HEADER_1,
            0x07u8,
            0x00u8,
            ACTION_RUN,
            DEVICE_ENCODER_MOTOR,
            port,
            0x02u8,
            ((speed as u16) % 256) as u8,
            ((speed as u16) / 256) as u8,
        ],
        position matches Some(pos) ==> r@ == seq![
            HEADER_0,
            HEADER_1,
            0x0bu8,
            0x00u8,
            ACTION_RUN,
            DEVICE_ENCODER_MOTOR,
            port,
            0x02u8,
            ((speed as u16) % 256) as u8,
            ((speed as u16) / 256) as u8,
            ((pos as u32) % 256) as u8,
            (((pos as u32) / 256) % 256) as u8,
            (((pos as u32) / 65_536) % 256) as u8,
            ((pos as u32) / 16_777_216) as u8,
        ],
        r@.len() == 3 + r@[2],
        r@[8] + 256 * r@[9] == speed as u16,
{
    let sp = speed as u16;
    let sp_lo = (sp % 256) as u8;
    let sp_hi = (sp / 256) as u8;
    proof {
        lemma_fundamental_div_mod(sp as int, 256);
        lemma_mod_bound(sp as int, 256);
    }
    match position {
        None => {
            let r = vec![
                HEADER_0,
                HEADER_1,
                0x07u8,
                0x00u8,
                ACTION_RUN,
                DEVICE_ENCODER_MOTOR,
                port,
                0x02u8,
                sp_lo,
                sp_hi,
            ];
            proof {
                assert(r@ =~= seq![
                    HEADER_0,
                    HEADER_1,
                    0x07u8,
                    0x00u8,
                    ACTION_RUN,
                    DEVICE_ENCODER_MOTOR,
                    port,
                    0x02u8,
                    ((speed as u16) % 256) as u8,
                    ((speed as u16) / 256) as u8,
                ]);
            }
            r
        },
        Some(pos) => {
            let p = pos as u32;
            let p0 = (p % 256) as u8;
            let p1 = ((p / 256) % 256) as u8;
            let p2 = ((p / 65_536) % 256) as u8;
            let p3 = (p / 16_777_216) as u8;
            let r = vec![
                HEADER_0,
                HEADER_1,
                0x0bu8,
                0x00u8,
                ACTION_RUN,
                DEVICE_ENCODER_MOTOR,
                port,
                0x02u8,
                sp_lo,
                sp_hi,
                p0,
                p1,
                p2,
                p3,
            ];
            proof {
                assert(r@ =~= seq![
                    HEADER_0,
                    HEADER_1,
                    0x0bu8,
                    0x00u8,
                    ACTION_RUN,
                    DEVICE_ENCODER_MOTOR,
                    port,
                    0x02u8,
                    ((speed as u16) % 256) as u8,
                    ((speed as u16) / 256) as u8,
                    ((pos as u32) % 256) as u8,
                    (((pos as u32) / 256) % 256) as u8,
                    (((pos as u32) / 65_536) % 256) as u8,
                    ((pos as u32) / 16_777_216) as u8,
                ]);
            }
            r
        },
    }
}

/// Build the frame that moves the servo on `port` to `angle` degrees.
pub fn servo_cmd(port: u8, angle: u8) -> (r: Vec<u8>)
    ensures
        r@ == seq![HEADER_0, HEADER_1, 0x05u8, 0x00u8, ACTION_RUN, DEVICE_SERVO, port, angle],
{
    let r = vec![HEADER_0, HEADER_1, 0x05u8, 0x00u8, ACTION_RUN, DEVICE_SERVO, port, angle];
    proof {
        assert(r@ =~= seq![
            HEADER_0,
            HEADER_1,
            0x05u8,
            0x00u8,
            ACTION_RUN,
            DEVICE_SERVO,
            port,
            angle,
        ]);
    }
    r
}

/// Build the frame that paints all onboard LEDs one RGB color.
pub fn led_cmd(rgb: [u8; 3]) -> (r: Vec<u8>)
    ensures
        r@ == seq![
            HEADER_0,
            HEADER_1,
            0x08u8,
            0x00u8,
            ACTION_RUN,
            DEVICE_RGBLED,
            0x07u8,
            0x02u8,
            0x00u8,
            rgb[0],
            rgb[1],
            rgb[2],
        ],
{
    let r = vec![
        HEADER_0,
        HEADER_1,
        0x08u8,
        0x00u8,
        ACTION_RUN,
        DEVICE_RGBLED,
        0x07u8,
        0x02u8,
        0x00u8,
        rgb[0],
        rgb[1],
        rgb[2],
    ];
    proof {
        assert(r@ =~= seq![
            HEADER_0,
            HEADER_1,
            0x08u8,
            0x00u8,
            ACTION_RUN,
            DEVICE_RGBLED,
            0x07u8,
            0x02u8,
            0x00u8,
            rgb@[0],
            rgb@[1],
            rgb@[2],
        ]);
    }
    r
}

/// Build the frame that sounds the buzzer: little-endian 16-bit frequency
/// and duration.
pub fn buzzer_cmd(frequency: u16, duration_ms: u16) -> (r: Vec<u8>)
    ensures
        r@ == seq![
            HEADER_0,
            HEADER_1,
            0x08u8,
            0x00u8,
            ACTION_RUN,
            DEVICE_BUZZER,
            (frequency % 256) as u8,
            (frequency / 256) as u8,
            (duration_ms % 256) as u8,
            (duration_ms / 256) as u8,
        ],
        r@[6] + 256 * r@[7] == frequency,
        r@[8] + 256 * r@[9] == duration_ms,
{
    proof {
        lemma_fundamental_div_mod(frequency as int, 256);
        lemma_mod_bound(frequency as int, 256);
        lemma_fundamental_div_mod(duration_ms as int, 256);
        lemma_mod_bound(duration_ms as int, 256);
    }
    let r = vec![
        HEADER_0,
        HEADER_1,
        0x08u8,
        0x00u8,
        ACTION_RUN,
        DEVICE_BUZZER,
        (frequency % 256) as u8,
        (frequency / 256) as u8,
        (duration_ms % 256) as u8,
        (duration_ms / 256) as u8,
    ];
    proof {
        assert(r@ =~= seq![
            HEADER_0,
            HEADER_1,
            0x08u8,
            0x00u8,
            ACTION_RUN,
            DEVICE_BUZZER,
            (frequency % 256) as u8,
            (frequency / 256) as u8,
            (duration_ms % 256) as u8,
            (duration_ms / 256) as u8,
        ]);
    }
    r
}

/// Build the gyro read frame for one axis (1 = x, 2 = y, 3 = z).
pub fn read_gyro_cmd(axis: u8) -> (r: Vec<u8>)
    ensures
        r@ == seq![HEADER_0, HEADER_1, 0x05u8, 0x00u8, ACTION_GET, DEVICE_GYRO, 0x00u8, axis],
{
    let r = vec![HEADER_0, HEADER_1, 0x05u8, 0x00u8, ACTION_GET, DEVICE_GYRO, 0x00u8, axis];
    proof {
        assert(r@ =~= seq![
            HEADER_0,
            HEADER_1,
            0x05u8,
            0x00u8,
            ACTION_GET,
            DEVICE_GYRO,
            0x00u8,
            axis,
        ]);
    }
    r
}

/// Build the quad reflectance sensor read frame.
pub fn read_quad_rgb_cmd() -> (r: Vec<u8>)
    ensures
        r@ == seq![HEADER_0, HEADER_1, 0x04u8, 0x00u8, ACTION_GET, DEVICE_QUAD_RGB, 0x01u8],
{
    let r = vec![HEADER_0, HEADER_1, 0x04u8, 0x00u8, ACTION_GET, DEVICE_QUAD_RGB, 0x01u8];
    proof {
        assert(r@ =~= seq![
            HEADER_0,
            HEADER_1,
            0x04u8,
            0x00u8,
            ACTION_GET,
            DEVICE_QUAD_RGB,
            0x01u8,
        ]);
    }
    r
}

} // verus!
