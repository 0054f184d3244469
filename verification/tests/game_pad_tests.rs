use guitar_pad::game_pad::{channel_key, GamePad, KeyMap};

#[test]
fn key_codes_match_the_wire_values() {
    assert_eq!(KeyMap::ENTER.to_u8(), 0x28);
    assert_eq!(KeyMap::StrumUp.to_u8(), 0x52);
    assert_eq!(KeyMap::StrumDown.to_u8(), 0x51);
    assert_eq!(KeyMap::Q.to_u8(), 0x14);
    assert_eq!(KeyMap::W.to_u8(), 0x1a);
    assert_eq!(KeyMap::E.to_u8(), 0x08);
    assert_eq!(KeyMap::R.to_u8(), 0x15);
    assert_eq!(KeyMap::T.to_u8(), 0x17);
    assert_eq!(KeyMap::NULL.to_u8(), 0x00);
}

#[test]
fn channel_order_is_strums_then_frets() {
    let expected = [0x52u8, 0x51, 0x14, 0x1a, 0x08, 0x15, 0x17];
    for i in 0..7 {
        assert_eq!(channel_key(i).to_u8(), expected[i]);
    }
}

#[test]
fn to_array_code_writes_active_channels() {
    let states = [false, true, false, true, false, false, true];
    let mut result = [0xaau8; 7];
    GamePad::to_array_code(&states, &mut result);
    // Strum-up is released here, so strum-down's code is emitted.
    assert_eq!(result, [0x00, 0x51, 0x00, 0x1a, 0x00, 0x00, 0x17]);
}

#[test]
fn to_array_code_clears_inactive_slots() {
    let states = [false; 7];
    let mut result = [0xaau8; 7];
    GamePad::to_array_code(&states, &mut result);
    assert_eq!(result, [0x00; 7]);
}

#[test]
fn to_array_code_press_then_release() {
    let mut result = [0u8; 7];
    let pressed = [false, false, true, false, false, false, false];
    GamePad::to_array_code(&pressed, &mut result);
    assert_eq!(result, [0, 0, 0x14, 0, 0, 0, 0]);
    // The release clears the slot again; nothing stale survives.
    let released = [false; 7];
    GamePad::to_array_code(&released, &mut result);
    assert_eq!(result, [0u8; 7]);
}

#[test]
fn to_array_code_strum_bounce_emits_winner_only() {
    let states = [true, true, false, false, false, false, false];
    let mut result = [0u8; 7];
    GamePad::to_array_code(&states, &mut result);
    // Strum-up wins; strum-down's code appears nowhere.
    assert_eq!(result, [0x52, 0x00, 0, 0, 0, 0, 0]);
    assert!(result.iter().all(|&b| b != 0x51));
}

#[test]
fn to_array_code_all_pressed_merges_strums() {
    let states = [true; 7];
    let mut result = [0u8; 7];
    GamePad::to_array_code(&states, &mut result);
    assert_eq!(result, [0x52, 0x00, 0x14, 0x1a, 0x08, 0x15, 0x17]);
}
