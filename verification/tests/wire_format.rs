use carburetor::instruction::{
    decode, encode, Instruction, MessageBytes, MotorInstruction, CHANNEL_COUNT, FRAME_LEN,
    TAG_BATTERY, TAG_CPU, TAG_MEMORY, TAG_MOTOR, TAG_QUERY,
};
use carburetor::speed::Speed;

fn speed_of(value: f32) -> Speed {
    Speed::from_bits(value.to_bits()).expect("speed within bounds")
}

fn motor_frame(channel: u8, value: f32) -> MessageBytes {
    let b = value.to_be_bytes();
    [TAG_MOTOR, channel, 0, 0, b[0], b[1], b[2], b[3]]
}

fn motor(channel: u8, value: f32) -> Instruction {
    Instruction::Motor(MotorInstruction::new(channel, speed_of(value)))
}

#[test]
fn frame_has_eight_bytes() {
    assert_eq!(FRAME_LEN, 8);
    assert_eq!(MessageBytes::default().len(), FRAME_LEN);
    assert_eq!(CHANNEL_COUNT, 2);
}

#[test]
fn decodes_motor_frame_on_each_channel() {
    assert_eq!(decode(motor_frame(0, 0.5)), Some(motor(0, 0.5)));
    assert_eq!(decode(motor_frame(1, -0.25)), Some(motor(1, -0.25)));
}

#[test]
fn decoded_motor_instruction_gives_back_channel_and_speed() {
    let decoded = decode(motor_frame(1, 0.75)).expect("valid frame");
    match decoded {
        Instruction::Motor(instruction) => {
            assert_eq!(instruction.channel(), 1);
            assert_eq!(instruction.speed().to_bits(), 0.75f32.to_bits());
            assert_eq!(f32::from_bits(instruction.speed().to_bits()), 0.75);
        }
        other => panic!("expected a motor instruction, got {other:?}"),
    }
}

#[test]
fn motor_frame_speed_is_big_endian() {
    // 0.5 is 0x3f00_0000
    let frame = [TAG_MOTOR, 0, 0, 0, 0x3f, 0x00, 0x00, 0x00];
    assert_eq!(decode(frame), Some(motor(0, 0.5)));
    // the same bytes the other way round are a tiny positive number, not 0.5
    let reversed = [TAG_MOTOR, 0, 0, 0, 0x00, 0x00, 0x00, 0x3f];
    let decoded = decode(reversed).expect("subnormal speeds are within bounds");
    assert_eq!(decoded, motor(0, f32::from_bits(0x0000_003f)));
    assert_ne!(decoded, motor(0, 0.5));
}

#[test]
fn all_zero_frame_is_neutral_on_channel_zero() {
    let decoded = decode([0; 8]);
    assert_eq!(
        decoded,
        Some(Instruction::Motor(MotorInstruction::new(0, Speed::neutral())))
    );
}

#[test]
fn decodes_status_requests() {
    assert_eq!(decode([TAG_QUERY, 0, 0, 0, 0, 0, 0, 0]), Some(Instruction::Query));
    assert_eq!(decode([TAG_BATTERY, 0, 0, 0, 0, 0, 0, 0]), Some(Instruction::Battery));
    assert_eq!(decode([TAG_MEMORY, 0, 0, 0, 0, 0, 0, 0]), Some(Instruction::Memory));
    assert_eq!(decode([TAG_CPU, 0, 0, 0, 0, 0, 0, 0]), Some(Instruction::Cpu));
}

#[test]
fn status_requests_ignore_their_payload() {
    assert_eq!(decode([TAG_QUERY, 9, 8, 7, 6, 5, 4, 3]), Some(Instruction::Query));
    assert_eq!(decode([TAG_BATTERY, 255, 255, 255, 255, 255, 255, 255]), Some(Instruction::Battery));
    assert_eq!(decode([TAG_MEMORY, 7, 0, 0, 0x7f, 0xc0, 0, 0]), Some(Instruction::Memory));
    assert_eq!(decode([TAG_CPU, 2, 0, 0, 0x40, 0, 0, 0]), Some(Instruction::Cpu));
}

#[test]
fn motor_frame_ignores_padding() {
    let mut frame = motor_frame(1, 0.125);
    frame[2] = 0xaa;
    frame[3] = 0x55;
    assert_eq!(decode(frame), Some(motor(1, 0.125)));
}

#[test]
fn unknown_tags_decode_to_nothing() {
    for tag in 5..=255u8 {
        assert_eq!(decode([tag, 0, 0, 0, 0, 0, 0, 0]), None, "tag {tag}");
        assert_eq!(decode([tag, 1, 0, 0, 0x3f, 0, 0, 0]), None, "tag {tag}");
    }
}

#[test]
fn out_of_range_channel_decodes_to_nothing() {
    for channel in 2..=255u8 {
        assert_eq!(decode(motor_frame(channel, 0.5)), None, "channel {channel}");
    }
    assert_eq!(decode(motor_frame(7, 0.0)), None);
}

#[test]
fn out_of_range_speed_decodes_to_nothing() {
    for value in [1.5f32, -1.5, 2.0, -2.0, 1.000_000_1, -1.000_000_1, 1e30, f32::MAX, f32::MIN] {
        assert_eq!(decode(motor_frame(0, value)), None, "speed {value}");
        assert_eq!(decode(motor_frame(1, value)), None, "speed {value}");
    }
}

#[test]
fn speeds_that_are_not_numbers_decode_to_nothing() {
    for value in [f32::NAN, -f32::NAN, f32::INFINITY, f32::NEG_INFINITY] {
        assert_eq!(decode(motor_frame(0, value)), None);
    }
    // a NaN with a payload, and one with the sign bit set
    assert_eq!(decode([TAG_MOTOR, 0, 0, 0, 0x7f, 0x80, 0x00, 0x01]), None);
    assert_eq!(decode([TAG_MOTOR, 0, 0, 0, 0xff, 0xff, 0xff, 0xff]), None);
}

#[test]
fn speeds_at_the_bounds_decode() {
    for value in [1.0f32, -1.0, 0.0, -0.0, f32::MIN_POSITIVE, -f32::MIN_POSITIVE, 0.999_999_94] {
        let decoded = decode(motor_frame(1, value)).expect("speed within bounds");
        match decoded {
            Instruction::Motor(instruction) => {
                assert_eq!(instruction.speed().to_bits(), value.to_bits())
            }
            other => panic!("expected a motor instruction, got {other:?}"),
        }
    }
}

#[test]
fn bad_channel_and_bad_speed_together_decode_to_nothing() {
    assert_eq!(decode(motor_frame(7, 3.0)), None);
}

#[test]
fn encodes_motor_instruction_byte_for_byte() {
    assert_eq!(encode(motor(1, 0.5)), [0, 1, 0, 0, 0x3f, 0x00, 0x00, 0x00]);
    assert_eq!(encode(motor(0, -1.0)), [0, 0, 0, 0, 0xbf, 0x80, 0x00, 0x00]);
    let third = 1.0f32 / 3.0;
    let b = third.to_be_bytes();
    assert_eq!(encode(motor(0, third)), [0, 0, 0, 0, b[0], b[1], b[2], b[3]]);
}

#[test]
fn encodes_status_requests() {
    assert_eq!(encode(Instruction::Query), [1, 0, 0, 0, 0, 0, 0, 0]);
    assert_eq!(encode(Instruction::Battery), [2, 0, 0, 0, 0, 0, 0, 0]);
    assert_eq!(encode(Instruction::Memory), [3, 0, 0, 0, 0, 0, 0, 0]);
    assert_eq!(encode(Instruction::Cpu), [4, 0, 0, 0, 0, 0, 0, 0]);
}

#[test]
fn decode_undoes_encode() {
    let mut instructions = vec![
        Instruction::Query,
        Instruction::Battery,
        Instruction::Memory,
        Instruction::Cpu,
    ];
    for channel in 0..2u8 {
        for step in -100..=100i32 {
            let value = step as f32 / 100.0;
            instructions.push(motor(channel, value));
        }
    }
    for instruction in instructions {
        assert_eq!(decode(encode(instruction)), Some(instruction));
    }
}

#[test]
fn valid_motor_frames_recover_what_was_encoded() {
    // every 4099th pattern of the unit range, both signs, both channels
    let mut pattern: u32 = 0;
    while pattern <= 0x3f80_0000 {
        for sign in [0u32, 0x8000_0000] {
            for channel in 0..2u8 {
                let bits = pattern | sign;
                let b = bits.to_be_bytes();
                let decoded = decode([TAG_MOTOR, channel, 0, 0, b[0], b[1], b[2], b[3]]);
                match decoded {
                    Some(Instruction::Motor(instruction)) => {
                        assert_eq!(instruction.channel(), channel);
                        assert_eq!(instruction.speed().to_bits(), bits);
                        let value = f32::from_bits(instruction.speed().to_bits());
                        assert!((-1.0..=1.0).contains(&value));
                    }
                    other => panic!("pattern {bits:#x} decoded to {other:?}"),
                }
            }
        }
        pattern += 4099 * 64;
    }
}

#[test]
fn decode_agrees_with_the_range_of_the_number() {
    // patterns across the whole 32-bit space
    let mut pattern: u32 = 0;
    loop {
        let value = f32::from_bits(pattern);
        let b = pattern.to_be_bytes();
        let decoded = decode([TAG_MOTOR, 1, 0, 0, b[0], b[1], b[2], b[3]]);
        assert_eq!(decoded.is_some(), (-1.0..=1.0).contains(&value), "pattern {pattern:#x}");
        match pattern.checked_add(0x0001_2345) {
            Some(next) => pattern = next,
            None => break,
        }
    }
}

#[test]
fn motor_instruction_for_unknown_channel_encodes_but_does_not_decode() {
    let instruction = Instruction::Motor(MotorInstruction::new(7, speed_of(0.5)));
    let frame = encode(instruction);
    assert_eq!(frame, [0, 7, 0, 0, 0x3f, 0, 0, 0]);
    assert_eq!(decode(frame), None);
}
