use commandpad::protocol::decode;
use commandpad::protocol::get_instruction;
use commandpad::protocol::valid_position;
use commandpad::protocol::Command;
use commandpad::protocol::DecodeError;
use commandpad::protocol::Instruction;

#[test]
fn instruction_table() {
    assert_eq!(get_instruction(0x03), Instruction::SetTileColor);
    assert_eq!(get_instruction(0x04), Instruction::SetTileRgb);
    assert_eq!(get_instruction(0x05), Instruction::SetGridRaw);
    assert_eq!(get_instruction(0x06), Instruction::SetGridColor);
    assert_eq!(get_instruction(0x07), Instruction::SetGridRgb);
    assert_eq!(get_instruction(0x00), Instruction::Noop);
    assert_eq!(get_instruction(0x02), Instruction::Noop);
    assert_eq!(get_instruction(0x08), Instruction::Noop);
    assert_eq!(get_instruction(0xFF), Instruction::Noop);
}

#[test]
fn valid_position_checks_both_digits() {
    assert!(valid_position(11));
    assert!(valid_position(42));
    assert!(valid_position(88));
    assert!(!valid_position(0));
    assert!(!valid_position(9));
    assert!(!valid_position(10));
    assert!(!valid_position(19));
    assert!(!valid_position(90));
    assert!(!valid_position(99));
}

#[test]
fn decode_set_tile_color() {
    let frame = vec![0x03, 42, 5];
    match decode(&frame) {
        Ok(Command::SetTileColor(position, color)) => {
            assert_eq!(position, 42);
            assert_eq!(color, 5);
        }
        other => panic!("expected SetTileColor, got {:?}", result_name(&other)),
    }
}

#[test]
fn decode_unknown_id_is_noop() {
    let frame = vec![0xFF, 42, 5];
    assert!(matches!(decode(&frame), Ok(Command::Noop)));
    let frame = vec![0xFF];
    assert!(matches!(decode(&frame), Ok(Command::Noop)));
    let frame = vec![0x00; 512];
    assert!(matches!(decode(&frame), Ok(Command::Noop)));
}

#[test]
fn decode_set_tile_rgb() {
    let frame = vec![0x04, 42, 200, 100, 50];
    match decode(&frame) {
        Ok(Command::SetTileRgb(position, r, g, b)) => {
            assert_eq!((position, r, g, b), (42, 200, 100, 50));
        }
        other => panic!("expected SetTileRgb, got {:?}", result_name(&other)),
    }
}

#[test]
fn decode_short_frames() {
    assert!(matches!(decode(&vec![]), Err(DecodeError::ShortFrame)));
    assert!(matches!(decode(&vec![0x03]), Err(DecodeError::ShortFrame)));
    assert!(matches!(decode(&vec![0x03, 42]), Err(DecodeError::ShortFrame)));
    assert!(matches!(decode(&vec![0x04, 42, 1, 2]), Err(DecodeError::ShortFrame)));
    assert!(matches!(decode(&vec![0x05; 192]), Err(DecodeError::ShortFrame)));
    assert!(matches!(decode(&vec![0x06; 64]), Err(DecodeError::ShortFrame)));
    assert!(matches!(decode(&vec![0x07; 192]), Err(DecodeError::ShortFrame)));
}

#[test]
fn decode_invalid_position() {
    assert!(matches!(decode(&vec![0x03, 9, 5]), Err(DecodeError::InvalidPosition)));
    assert!(matches!(decode(&vec![0x03, 19, 5]), Err(DecodeError::InvalidPosition)));
    assert!(matches!(decode(&vec![0x03, 90, 5]), Err(DecodeError::InvalidPosition)));
    assert!(matches!(decode(&vec![0x04, 0, 1, 2, 3]), Err(DecodeError::InvalidPosition)));
}

#[test]
fn decode_invalid_color() {
    assert!(matches!(decode(&vec![0x03, 42, 200]), Err(DecodeError::InvalidColor)));
    assert!(matches!(decode(&vec![0x03, 42, 128]), Err(DecodeError::InvalidColor)));
    let mut frame = vec![0x06];
    frame.extend_from_slice(&[1u8; 64]);
    frame[10] = 200;
    assert!(matches!(decode(&frame), Err(DecodeError::InvalidColor)));
}

#[test]
fn decode_grid_color_takes_64_bytes() {
    let mut frame = vec![0x06];
    for i in 0..70u8 {
        frame.push(i % 128);
    }
    match decode(&frame) {
        Ok(Command::SetGridColor(colors)) => {
            assert_eq!(colors.len(), 64);
            for (i, c) in colors.iter().enumerate() {
                assert_eq!(*c, (i as u8) % 128);
            }
        }
        other => panic!("expected SetGridColor, got {:?}", result_name(&other)),
    }
}

#[test]
fn decode_grid_raw_takes_192_bytes() {
    let mut frame = vec![0x05];
    for i in 0..200u16 {
        frame.push(i as u8);
    }
    match decode(&frame) {
        Ok(Command::SetGridRaw(payload)) => {
            assert_eq!(payload.len(), 192);
            for (i, p) in payload.iter().enumerate() {
                assert_eq!(*p, i as u8);
            }
        }
        other => panic!("expected SetGridRaw, got {:?}", result_name(&other)),
    }
}

#[test]
fn decode_grid_rgb_takes_192_bytes() {
    let mut frame = vec![0x07];
    for i in 0..195u16 {
        frame.push((i % 256) as u8);
    }
    match decode(&frame) {
        Ok(Command::SetGridRgb(rgb)) => {
            assert_eq!(rgb.len(), 192);
            for (i, p) in rgb.iter().enumerate() {
                assert_eq!(*p, i as u8);
            }
        }
        other => panic!("expected SetGridRgb, got {:?}", result_name(&other)),
    }
}

fn result_name(result: &Result<Command, DecodeError>) -> String {
    match result {
        Ok(Command::Noop) => "Noop".to_string(),
        Ok(Command::SetTileColor(..)) => "SetTileColor".to_string(),
        Ok(Command::SetTileRgb(..)) => "SetTileRgb".to_string(),
        Ok(Command::SetGridRaw(..)) => "SetGridRaw".to_string(),
        Ok(Command::SetGridColor(..)) => "SetGridColor".to_string(),
        Ok(Command::SetGridRgb(..)) => "SetGridRgb".to_string(),
        Err(e) => format!("{:?}", e),
    }
}
