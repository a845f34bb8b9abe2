use sensit_decoder::error::DecodeError;
use sensit_decoder::frame::{decode, parse_button_mode, DecodedButtonFrame};
use sensit_decoder::header::{FrameType, Mode, Timeframe};

#[test]
fn empty_buffer_fails_with_insufficient_data() {
    let empty: Vec<u8> = Vec::new();
    assert_eq!(decode(&empty), Err(DecodeError::InsufficientData));
    assert_eq!(decode(&[]), Err(DecodeError::InsufficientData));
}

#[test]
fn single_byte_with_nonzero_mode_bits_fails_with_unknown_mode() {
    let mut seen = 0;
    for byte in 0..=255u8 {
        if byte % 8 != 0 {
            assert_eq!(decode(&[byte]), Err(DecodeError::UnknownMode), "byte {:#04x}", byte);
            seen += 1;
        }
    }
    assert_eq!(seen, 224);
}

#[test]
fn unknown_mode_wins_over_every_later_length_check() {
    assert_eq!(decode(&[0x01]), Err(DecodeError::UnknownMode));
    assert_eq!(decode(&[0x07, 0x00]), Err(DecodeError::UnknownMode));
    assert_eq!(decode(&[0x02, 0x00, 0x00]), Err(DecodeError::UnknownMode));
    assert_eq!(decode(&[0x05, 0x00, 0x00, 0x00]), Err(DecodeError::UnknownMode));
    assert_eq!(decode(&[0xff, 0xff, 0xff, 0xff, 0xff]), Err(DecodeError::UnknownMode));
}

#[test]
fn every_full_frame_with_mode_zero_decodes() {
    let mut seen = 0;
    for byte in 0..=255u8 {
        if byte % 8 != 0 {
            continue;
        }
        seen += 1;
        let frame = decode(&[byte, 0x5a, 0x6a, 0x21]).expect("a full frame decodes");
        assert_eq!(frame.mode, Mode::Button);
        assert_eq!(frame.timeframe.value(), (byte / 8) % 4);
        assert_eq!(frame.frame_type.value(), (byte / 32) % 4);
        assert_eq!(frame.battery, (byte / 128) * 16 + 10 + 54);
        assert_eq!(frame.mode_text, frame.mode.label());
        assert_eq!(frame.timeframe_text, frame.timeframe.label());
        assert_eq!(frame.type_text, frame.frame_type.label());
        assert_eq!(frame.temp_c, 162);
        assert_eq!(frame.temp_c_low_precision, 120);
        assert_eq!(frame.temp_f, 2738);
        assert_eq!(frame.temp_f_low_precision, 2360);
        assert_eq!(frame.reed_switch_state, 1);
        assert_eq!(frame.major_version, 2);
        assert_eq!(frame.minor_version, 1);
    }
    assert_eq!(seen, 32);
}

#[test]
fn one_byte_with_valid_mode_fails_at_the_battery() {
    let data = [0x00u8];
    assert_eq!(sensit_decoder::fields::get_mode(&data), Ok(Mode::Button));
    assert_eq!(sensit_decoder::fields::get_timeframe(&data), Ok(Timeframe::TenMinutes));
    assert_eq!(sensit_decoder::fields::get_type(&data), Ok(FrameType::Regular));
    assert_eq!(sensit_decoder::fields::get_battery(&data), Err(DecodeError::InsufficientData));
    assert_eq!(decode(&data), Err(DecodeError::InsufficientData));
    assert_eq!(decode(&[0x78]), Err(DecodeError::InsufficientData));
    assert_eq!(decode(&[0xf8]), Err(DecodeError::InsufficientData));
}

#[test]
fn two_and_three_bytes_with_valid_mode_are_insufficient() {
    assert_eq!(decode(&[0x00, 0x00]), Err(DecodeError::InsufficientData));
    assert_eq!(decode(&[0x00, 0x00, 0x00]), Err(DecodeError::InsufficientData));
    assert_eq!(decode(&[0x28, 0xc8, 0x7f]), Err(DecodeError::InsufficientData));
}

#[test]
fn all_zero_frame_end_to_end() {
    let frame = decode(&[0x00, 0x00, 0x00, 0x00]).expect("a full frame decodes");
    assert_eq!(frame.mode, Mode::Button);
    assert_eq!(frame.mode_text, "Button");
    assert_eq!(frame.timeframe, Timeframe::TenMinutes);
    assert_eq!(frame.timeframe_text, "TenMinutes");
    assert_eq!(frame.frame_type, FrameType::Regular);
    assert_eq!(frame.type_text, "Regular");
    assert_eq!(frame.battery, 54);
    assert_eq!(frame.battery as f64 / 20.0, 2.7);
    assert_eq!(frame.temp_c, -200);
    assert_eq!(frame.temp_c_low_precision, -200);
    assert_eq!(frame.temp_c as f64 / 8.0, -25.0);
    assert_eq!(frame.temp_c_low_precision as f64 / 8.0, -25.0);
    assert_eq!(frame.temp_f, -520);
    assert_eq!(frame.temp_f_low_precision, -520);
    assert_eq!(frame.temp_f as f64 / 40.0, -13.0);
    assert_eq!(frame.temp_f_low_precision as f64 / 40.0, -13.0);
    assert_eq!(frame.reed_switch_state, 0);
    assert_eq!(frame.major_version, 0);
    assert_eq!(frame.minor_version, 0);
}

#[test]
fn all_zero_frame_equals_the_record_written_out() {
    let expected = DecodedButtonFrame {
        mode: Mode::Button,
        mode_text: String::from("Button"),
        timeframe: Timeframe::TenMinutes,
        timeframe_text: String::from("TenMinutes"),
        frame_type: FrameType::Regular,
        type_text: String::from("Regular"),
        battery: 54,
        temp_c_low_precision: -200,
        temp_c: -200,
        temp_f_low_precision: -520,
        temp_f: -520,
        reed_switch_state: 0,
        major_version: 0,
        minor_version: 0,
    };
    assert_eq!(decode(&[0, 0, 0, 0]), Ok(expected));
}

#[test]
fn mixed_frame_decodes_every_field() {
    // 0xc8 = 1 10 01 000: battery bit 1, type 2, timeframe 1, mode 0.
    // 0x5a: temperature high part 5, battery low bits 10.
    // 0x6a = 0 1 101010: reed switch 1, temperature low part 42.
    // 0x21: major 2, minor 1.
    let frame = decode(&[0xc8, 0x5a, 0x6a, 0x21]).expect("a full frame decodes");
    assert_eq!(frame.mode, Mode::Button);
    assert_eq!(frame.mode_text, "Button");
    assert_eq!(frame.timeframe, Timeframe::OneHour);
    assert_eq!(frame.timeframe_text, "OneHour");
    assert_eq!(frame.frame_type, FrameType::Alert);
    assert_eq!(frame.type_text, "Alert");
    assert_eq!(frame.battery, 80);
    assert_eq!(frame.battery as f64 / 20.0, 4.0);
    assert_eq!(frame.temp_c, 162);
    assert_eq!(frame.temp_c as f64 / 8.0, 20.25);
    assert_eq!(frame.temp_c_low_precision, 120);
    assert_eq!(frame.temp_c_low_precision as f64 / 8.0, 15.0);
    assert_eq!(frame.temp_f, 2738);
    assert_eq!(frame.temp_f as f64 / 40.0, 68.45);
    assert_eq!(frame.temp_f_low_precision, 2360);
    assert_eq!(frame.temp_f_low_precision as f64 / 40.0, 59.0);
    assert_eq!(frame.reed_switch_state, 1);
    assert_eq!(frame.major_version, 2);
    assert_eq!(frame.minor_version, 1);
}

#[test]
fn all_ones_in_the_data_bytes_give_the_largest_values() {
    // Mode bits zero, every other bit set.
    let frame = decode(&[0xf8, 0xff, 0xff, 0xff]).expect("a full frame decodes");
    assert_eq!(frame.timeframe, Timeframe::TwentyFourHours);
    assert_eq!(frame.frame_type, FrameType::NewMode);
    assert_eq!(frame.battery, 85);
    assert_eq!(frame.temp_c, 823);
    assert_eq!(frame.temp_c as f64 / 8.0, 102.875);
    assert_eq!(frame.temp_c_low_precision, 760);
    assert_eq!(frame.temp_f, 8687);
    assert_eq!(frame.temp_f as f64 / 40.0, 217.175);
    assert_eq!(frame.temp_f_low_precision, 8120);
    assert_eq!(frame.reed_switch_state, 1);
    assert_eq!(frame.major_version, 15);
    assert_eq!(frame.minor_version, 15);
}

#[test]
fn top_bit_of_byte_two_belongs_to_no_field() {
    let with = decode(&[0x00, 0x00, 0x80, 0x00]).expect("a full frame decodes");
    let without = decode(&[0x00, 0x00, 0x00, 0x00]).expect("a full frame decodes");
    assert_eq!(with, without);
}

#[test]
fn trailing_bytes_do_not_change_the_record() {
    let short = decode(&[0xc8, 0x5a, 0x6a, 0x21]);
    let long = decode(&[0xc8, 0x5a, 0x6a, 0x21, 0xde, 0xad, 0xbe, 0xef]);
    assert!(short.is_ok());
    assert_eq!(short, long);
}

#[test]
fn decoding_twice_gives_the_same_record() {
    let data = vec![0x28u8, 0xc8, 0x15, 0x34];
    let first = decode(&data);
    let second = decode(&data);
    assert!(first.is_ok());
    assert_eq!(first, second);
    let copy = first.clone();
    assert_eq!(copy, second);

    let bad = vec![0x03u8, 0x00];
    assert_eq!(decode(&bad), decode(&bad));
    assert_eq!(decode(&bad), Err(DecodeError::UnknownMode));
}

#[test]
fn clone_keeps_every_field() {
    let frame = decode(&[0xc8, 0x5a, 0x6a, 0x21]).expect("a full frame decodes");
    let copy = frame.clone();
    assert_eq!(copy, frame);
    assert_eq!(copy.type_text, "Alert");
    assert_eq!(copy.temp_f, 2738);
}

#[test]
fn parse_button_mode_checks_lengths_but_not_the_mode_bits() {
    assert_eq!(parse_button_mode(Mode::Button, &[]), Err(DecodeError::InsufficientData));
    assert_eq!(parse_button_mode(Mode::Button, &[0x00]), Err(DecodeError::InsufficientData));
    assert_eq!(
        parse_button_mode(Mode::Button, &[0x00, 0x00, 0x00]),
        Err(DecodeError::InsufficientData)
    );
    // The mode is handed in: the mode bits of the buffer are not looked at.
    let frame = parse_button_mode(Mode::Button, &[0x0f, 0x00, 0x00, 0x00])
        .expect("four bytes are enough");
    assert_eq!(frame.mode, Mode::Button);
    assert_eq!(frame.timeframe, Timeframe::OneHour);
    assert_eq!(frame.frame_type, FrameType::Regular);
}

#[test]
fn decoded_records_are_well_formed() {
    for b0 in [0x00u8, 0x08, 0x50, 0x98, 0xf8] {
        for b1 in [0x00u8, 0x0f, 0x3c, 0xc8, 0xff] {
            for b2 in [0x00u8, 0x01, 0x3f, 0x40, 0x7f, 0xff] {
                for b3 in [0x00u8, 0x0f, 0xa5, 0xff] {
                    let frame = decode(&[b0, b1, b2, b3]).expect("a full frame decodes");
                    assert!((54..=85).contains(&frame.battery));
                    assert!((-200..=823).contains(&frame.temp_c));
                    assert_eq!(
                        frame.temp_c_low_precision,
                        frame.temp_c - (frame.temp_c + 200) % 64
                    );
                    assert_eq!(frame.temp_f, 9 * frame.temp_c + 1280);
                    assert_eq!(frame.temp_f_low_precision, 9 * frame.temp_c_low_precision + 1280);
                    assert!(frame.reed_switch_state <= 1);
                    assert!(frame.major_version <= 15);
                    assert!(frame.minor_version <= 15);
                    assert_eq!(frame.mode_text, frame.mode.label());
                    assert_eq!(frame.timeframe_text, frame.timeframe.label());
                    assert_eq!(frame.type_text, frame.frame_type.label());
                }
            }
        }
    }
}

#[test]
fn hand_written_record_is_what_its_frame_decodes_to() {
    // Battery 80 is reading 26 = 1 * 16 + 10; 162 eighths are reading
    // 362 = 5 * 64 + 42.
    let record = DecodedButtonFrame {
        mode: Mode::Button,
        mode_text: String::from("Button"),
        timeframe: Timeframe::OneHour,
        timeframe_text: String::from("OneHour"),
        frame_type: FrameType::Alert,
        type_text: String::from("Alert"),
        battery: 80,
        temp_c_low_precision: 120,
        temp_c: 162,
        temp_f_low_precision: 2360,
        temp_f: 2738,
        reed_switch_state: 1,
        major_version: 2,
        minor_version: 1,
    };
    let b0 = 8 * 1 + 32 * 2 + 128 * 1;
    let b1 = 10 + 16 * 5;
    let b2 = 42 + 64 * 1;
    let b3 = 1 + 16 * 2;
    assert_eq!(decode(&[b0, b1, b2, b3]), Ok(record));
}

#[test]
fn different_frames_give_different_records() {
    let base = [0xc8u8, 0x5a, 0x6a, 0x21];
    let decoded_base = decode(&base).expect("a full frame decodes");
    for position in 0..4usize {
        for bit in 0..8u32 {
            let mut changed = base;
            changed[position] ^= 1u8 << bit;
            let outcome = decode(&changed);
            if position == 0 && bit < 3 {
                assert_eq!(outcome, Err(DecodeError::UnknownMode));
            } else if position == 2 && bit == 7 {
                assert_eq!(outcome, Ok(decoded_base.clone()));
            } else {
                let other = outcome.expect("a full frame decodes");
                assert_ne!(other, decoded_base, "byte {} bit {}", position, bit);
            }
        }
    }
}
