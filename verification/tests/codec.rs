use virpil::color::{color_to_byte, same_color, BoardType, LedPower};
use virpil::packet::{command_id_for_command, packet_for_command};
use virpil::report::{
    axis_from_bytes, button_group_of, button_groups, button_in_group, decode_input,
    is_report_length, MAX_AXIS_VALUE,
};

const POWERS: [LedPower; 4] = [LedPower::Zero, LedPower::Thirty, LedPower::Sixty, LedPower::Full];

#[test]
fn board_protocol_bytes() {
    assert_eq!(BoardType::Default.protocol_byte(), 0x64);
    assert_eq!(BoardType::AddBoard.protocol_byte(), 0x65);
    assert_eq!(BoardType::OnBoard.protocol_byte(), 0x66);
    assert_eq!(BoardType::SlaveBoard.protocol_byte(), 0x67);
}

#[test]
fn led_power_levels() {
    assert_eq!(LedPower::Zero.to_level(), 0);
    assert_eq!(LedPower::Thirty.to_level(), 1);
    assert_eq!(LedPower::Sixty.to_level(), 2);
    assert_eq!(LedPower::Full.to_level(), 3);
}

#[test]
fn command_id_follows_the_board() {
    for slot in 0u8..=33 {
        assert_eq!(command_id_for_command(BoardType::Default, slot), 0);
        assert_eq!(command_id_for_command(BoardType::AddBoard, slot), slot);
        assert_eq!(command_id_for_command(BoardType::OnBoard, slot), slot + 4);
        assert_eq!(command_id_for_command(BoardType::SlaveBoard, slot), slot + 24);
    }
    assert_eq!(command_id_for_command(BoardType::Default, 255), 0);
    assert_eq!(command_id_for_command(BoardType::AddBoard, 255), 255);
    assert_eq!(command_id_for_command(BoardType::OnBoard, 251), 255);
    assert_eq!(command_id_for_command(BoardType::SlaveBoard, 231), 255);
}

#[test]
fn packet_for_add_board_slot_one_full_red() {
    let packet = packet_for_command(BoardType::AddBoard, 1, LedPower::FULL_RED);
    let mut expected = [0u8; 38];
    expected[0] = 0x02;
    expected[1] = 0x65;
    expected[2] = 1;
    expected[5] = 0x83;
    expected[37] = 0xf0;
    assert_eq!(packet, expected);
}

#[test]
fn packet_layout_for_every_slot() {
    for slot in 0u8..=32 {
        let packet = packet_for_command(BoardType::OnBoard, slot, LedPower::FULL_WHITE);
        assert_eq!(packet.len(), 38);
        for (i, byte) in packet.iter().enumerate() {
            let expected = match i {
                0 => 0x02,
                1 => 0x66,
                2 => slot + 4,
                37 => 0xf0,
                _ if i == slot as usize + 4 => 0xbf,
                _ => 0,
            };
            assert_eq!(*byte, expected, "slot {} byte {}", slot, i);
        }
    }
}

#[test]
fn packet_keeps_the_terminator_at_the_last_slot() {
    let packet = packet_for_command(BoardType::SlaveBoard, 33, LedPower::FULL_WHITE);
    assert_eq!(packet[2], 57);
    assert_eq!(packet[37], 0xf0);
    assert!(packet[3..37].iter().all(|byte| *byte == 0));
}

#[test]
fn color_byte_round_trips() {
    for r in 0..4usize {
        for g in 0..4usize {
            for b in 0..4usize {
                let byte = color_to_byte([POWERS[r], POWERS[g], POWERS[b]]);
                assert_eq!((byte & 0x03) as usize, r);
                assert_eq!(((byte >> 2) & 0x03) as usize, g);
                assert_eq!(((byte >> 4) & 0x03) as usize, b);
                assert_eq!(byte & 0x80, 0x80);
                assert_eq!(byte & 0x40, 0);
                assert_eq!(byte as usize, 128 + r + 4 * g + 16 * b);
            }
        }
    }
}

#[test]
fn color_bytes_of_the_palette() {
    assert_eq!(color_to_byte(LedPower::OFF), 0x80);
    assert_eq!(color_to_byte(LedPower::FULL_RED), 0x83);
    assert_eq!(color_to_byte(LedPower::FULL_YELLOW), 0x8f);
    assert_eq!(color_to_byte(LedPower::FULL_GREEN), 0x8c);
    assert_eq!(color_to_byte(LedPower::FULL_CYAN), 0xbc);
    assert_eq!(color_to_byte(LedPower::FULL_BLUE), 0xb0);
    assert_eq!(color_to_byte(LedPower::FULL_MAGENTA), 0xb3);
    assert_eq!(color_to_byte(LedPower::FULL_WHITE), 0xbf);
    assert_eq!(color_to_byte(LedPower::DEFAULT_RED), 0x82);
}

#[test]
fn color_progression_cycles_through_the_hues() {
    let steps = LedPower::COLOR_PROGRESSION;
    assert_eq!(steps.len(), 18);
    assert_eq!(steps[0], LedPower::FULL_RED);
    assert_eq!(steps[1], [LedPower::Full, LedPower::Thirty, LedPower::Zero]);
    assert_eq!(steps[3], LedPower::FULL_YELLOW);
    assert_eq!(steps[6], LedPower::FULL_GREEN);
    assert_eq!(steps[9], LedPower::FULL_CYAN);
    assert_eq!(steps[12], LedPower::FULL_BLUE);
    assert_eq!(steps[15], LedPower::FULL_MAGENTA);
    assert_eq!(steps[17], [LedPower::Full, LedPower::Zero, LedPower::Thirty]);
    for i in 0..steps.len() {
        for j in 0..i {
            assert_ne!(steps[i], steps[j]);
        }
    }
}

#[test]
fn same_color_compares_all_three_channels() {
    assert!(same_color(LedPower::FULL_RED, LedPower::FULL_RED));
    assert!(!same_color(LedPower::FULL_RED, LedPower::DEFAULT_RED));
    assert!(!same_color(LedPower::FULL_RED, LedPower::FULL_YELLOW));
    assert!(!same_color(LedPower::FULL_RED, LedPower::FULL_MAGENTA));
}

#[test]
fn button_groups_round_up() {
    assert_eq!(button_groups(0), 0);
    assert_eq!(button_groups(1), 1);
    assert_eq!(button_groups(8), 1);
    assert_eq!(button_groups(9), 2);
    assert_eq!(button_groups(10), 2);
    assert_eq!(button_groups(78), 10);
    assert_eq!(button_groups(usize::MAX), usize::MAX / 8 + 1);
}

#[test]
fn axis_bytes_are_little_endian() {
    assert_eq!(axis_from_bytes(0x00, 0x10), 0x1000);
    assert_eq!(axis_from_bytes(0x34, 0x12), 0x1234);
    assert_eq!(axis_from_bytes(0xff, 0xff), 0xffff);
    assert_eq!(axis_from_bytes(0x00, 0x40), MAX_AXIS_VALUE);
}

#[test]
fn button_bits_count_from_the_low_bit() {
    assert!(button_in_group(0b0000_0001, 0));
    assert!(!button_in_group(0b0000_0001, 1));
    assert!(button_in_group(0b1000_0000, 7));
    assert!(button_in_group(0b0000_0010, 9));
    assert!(!button_in_group(0b0000_0010, 8));
}

#[test]
fn report_length_is_checked_exactly() {
    assert!(is_report_length(7, 2, 10));
    assert!(!is_report_length(6, 2, 10));
    assert!(!is_report_length(8, 2, 10));
    assert!(!is_report_length(0, 0, 0));
    assert!(is_report_length(1, 0, 0));
    assert!(!is_report_length(64, usize::MAX, usize::MAX));
}

#[test]
fn decode_rejects_every_other_length() {
    for axis_count in 0usize..5 {
        for button_count in 0usize..20 {
            let expected = 1 + 2 * axis_count + (button_count + 7) / 8;
            for length in 0usize..40 {
                let buffer: Vec<u8> = (0..length).map(|i| i as u8).collect();
                match decode_input(&buffer, axis_count, button_count) {
                    Ok(report) => {
                        assert_eq!(length, expected);
                        assert_eq!(report.axes.len(), axis_count);
                        assert_eq!(report.buttons.len(), (button_count + 7) / 8);
                    }
                    Err(error) => {
                        assert_ne!(length, expected);
                        assert_eq!(error.length, length);
                        assert_eq!(error.bytes, buffer);
                    }
                }
            }
        }
    }
}

#[test]
fn decode_reads_axes_then_buttons() {
    let buffer = [0x01, 0x34, 0x12, 0xcd, 0xab, 0x81, 0x02];
    let report = decode_input(&buffer, 2, 10).unwrap();
    assert_eq!(report.axes, vec![0x1234, 0xabcd]);
    assert_eq!(report.buttons, vec![0x81, 0x02]);
}

#[test]
fn decode_of_an_empty_buffer_is_malformed() {
    let error = decode_input(&[], 0, 0).unwrap_err();
    assert_eq!(error.length, 0);
    assert!(error.bytes.is_empty());
}

#[test]
fn decode_of_a_bare_report_id() {
    let report = decode_input(&[9], 0, 0).unwrap();
    assert!(report.axes.is_empty());
    assert!(report.buttons.is_empty());
}

#[test]
fn axis_percent_uses_the_fixed_divisor() {
    assert_eq!(MAX_AXIS_VALUE, 0x4000);
    let half = 0x2000 as f32 / MAX_AXIS_VALUE as f32;
    assert!((half - 0.5).abs() < 1e-6);
    let full = 0x4000 as f32 / MAX_AXIS_VALUE as f32;
    assert_eq!(full, 1.0);
}

#[test]
fn buttons_are_grouped_by_eight() {
    assert_eq!(button_group_of(0), 0);
    assert_eq!(button_group_of(7), 0);
    assert_eq!(button_group_of(8), 1);
    assert_eq!(button_group_of(77), 9);
    assert_eq!(button_group_of(255), 31);
}
