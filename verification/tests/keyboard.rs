use hotkeyz::keyboard::hotkey::{MOD_ALT, MOD_CONTROL, MOD_SHIFT, MOD_WIN};
use hotkeyz::keyboard::keys::{
    classify, escaped_key_char, key_name_to_vk, Modifier, VK_CONTROL, VK_LWIN, VK_MENU, VK_SHIFT,
};
use hotkeyz::keyboard::{
    chars_to_scan, compile_hotkey, decode_scan, hotkey_from_events, input, input_keys, is_alt_key, is_ctrl_key,
    is_shift_key, is_win_key, mod_keys_up, parse_char, parse_part, parse_str, push_group,
    push_key_down, push_key_down_and_up, push_key_up, wait_keys_up, watch_set, HotkeyDescriptor,
    KeyError, KeyInput, KeyLayout, KeyRecord, KeyState, KeyWait, WaitAction, KEYEVENTF_KEYUP,
};
use hotkeyz::keyboard::KeyInput::{KeyDown, KeyUp};
use std::collections::HashSet;

const VK_OEM_PLUS: u8 = 0xBB;
const VK_OEM_COMMA: u8 = 0xBC;
const VK_OEM_MINUS: u8 = 0xBD;
const VK_OEM_PERIOD: u8 = 0xBE;

/// The letters, digits, space and the four syntax characters as a US
/// keyboard types them.
fn us_layout() -> KeyLayout {
    let mut layout = KeyLayout::new();
    for c in 'a'..='z' {
        layout.insert(c, c.to_ascii_uppercase() as u8, false);
    }
    for c in 'A'..='Z' {
        layout.insert(c, c as u8, true);
    }
    for c in '0'..='9' {
        layout.insert(c, c as u8, false);
    }
    layout.insert(' ', 0x20, false);
    layout.insert('<', VK_OEM_COMMA, true);
    layout.insert('>', VK_OEM_PERIOD, true);
    layout.insert('-', VK_OEM_MINUS, false);
    layout.insert('+', VK_OEM_PLUS, true);
    layout.insert('=', VK_OEM_PLUS, false);
    layout
}

fn down(vk: u8) -> KeyRecord {
    KeyRecord { vk: vk as u16, flags: 0 }
}

fn up(vk: u8) -> KeyRecord {
    KeyRecord { vk: vk as u16, flags: KEYEVENTF_KEYUP }
}

#[test]
fn type_abc() {
    println!("Testing start");
    assert_eq!(
        input("aBc", &us_layout()),
        Ok(vec![
            down(0x41),
            up(0x41),
            down(VK_SHIFT),
            down(0x42),
            up(0x42),
            up(VK_SHIFT),
            down(0x43),
            up(0x43),
        ])
    );
}

#[test]
fn type_escaped() {
    println!("Testing start");
    assert_eq!(
        input("<lt>", &us_layout()),
        Ok(vec![down(VK_SHIFT), down(VK_OEM_COMMA), up(VK_OEM_COMMA)])
    );
}

#[test]
fn show_desktop() {
    println!("Testing start");
    assert_eq!(
        input("<win+d>", &us_layout()),
        Ok(vec![down(VK_LWIN), down(0x44), up(0x44), up(VK_LWIN)])
    );
}

#[test]
fn switch_windows() {
    println!("Testing start");
    assert_eq!(
        input("<win+>23<win->", &us_layout()),
        Ok(vec![down(VK_LWIN), down(0x32), up(0x32), down(0x33), up(0x33), up(VK_LWIN)])
    );
}

#[test]
fn hotkey() {
    let descriptor = compile_hotkey("<ctrl+y>", &us_layout()).unwrap();
    assert_eq!(
        descriptor,
        HotkeyDescriptor { shift: false, ctrl: true, alt: false, win: false, vk: 0x59 }
    );
    assert_eq!(descriptor.modifier_mask(), MOD_CONTROL);
}

#[test]
fn empty_text_compiles_to_nothing() {
    assert_eq!(parse_str("", &us_layout()), Ok(vec![]));
    assert_eq!(input("", &us_layout()), Ok(vec![]));
}

#[test]
fn lowercase_text_is_typed_key_by_key() {
    assert_eq!(
        parse_str("ab", &us_layout()),
        Ok(vec![KeyDown(0x41), KeyUp(0x41), KeyDown(0x42), KeyUp(0x42)])
    );
}

#[test]
fn uppercase_run_presses_shift_once() {
    let events = parse_str("ABC", &us_layout()).unwrap();
    assert_eq!(
        events,
        vec![
            KeyDown(VK_SHIFT),
            KeyDown(0x41),
            KeyUp(0x41),
            KeyDown(0x42),
            KeyUp(0x42),
            KeyDown(0x43),
            KeyUp(0x43),
        ]
    );
    assert_eq!(events.iter().filter(|e| **e == KeyDown(VK_SHIFT)).count(), 1);
}

#[test]
fn uppercase_run_is_wrapped_when_lowercase_follows() {
    let events = parse_str("xABCy", &us_layout()).unwrap();
    assert_eq!(
        events,
        vec![
            KeyDown(0x58),
            KeyUp(0x58),
            KeyDown(VK_SHIFT),
            KeyDown(0x41),
            KeyUp(0x41),
            KeyDown(0x42),
            KeyUp(0x42),
            KeyDown(0x43),
            KeyUp(0x43),
            KeyUp(VK_SHIFT),
            KeyDown(0x59),
            KeyUp(0x59),
        ]
    );
    assert_eq!(events.iter().filter(|e| **e == KeyDown(VK_SHIFT)).count(), 1);
    assert_eq!(events.iter().filter(|e| **e == KeyUp(VK_SHIFT)).count(), 1);
}

#[test]
fn escaped_characters_are_typed_as_literals() {
    let layout = us_layout();
    assert_eq!(
        parse_str("<lt>", &layout),
        Ok(vec![KeyDown(VK_SHIFT), KeyDown(VK_OEM_COMMA), KeyUp(VK_OEM_COMMA)])
    );
    assert_eq!(
        parse_str("<gt>", &layout),
        Ok(vec![KeyDown(VK_SHIFT), KeyDown(VK_OEM_PERIOD), KeyUp(VK_OEM_PERIOD)])
    );
    assert_eq!(
        parse_str("<minus>", &layout),
        Ok(vec![KeyDown(VK_OEM_MINUS), KeyUp(VK_OEM_MINUS)])
    );
    assert_eq!(
        parse_str("<plus>", &layout),
        Ok(vec![KeyDown(VK_SHIFT), KeyDown(VK_OEM_PLUS), KeyUp(VK_OEM_PLUS)])
    );
}

#[test]
fn escaped_lt_differs_from_a_bare_lt() {
    let layout = us_layout();
    assert_eq!(parse_str("<", &layout), Err(KeyError::UnterminatedBracket));
    assert!(parse_str("<lt>", &layout).is_ok());
}

#[test]
fn single_name_is_typed_as_a_literal() {
    assert_eq!(parse_str("<pagedown>", &us_layout()), Ok(vec![KeyDown(0x22), KeyUp(0x22)]));
    assert_eq!(
        parse_str("A<enter>", &us_layout()),
        Ok(vec![
            KeyDown(VK_SHIFT),
            KeyDown(0x41),
            KeyUp(0x41),
            KeyUp(VK_SHIFT),
            KeyDown(0x0D),
            KeyUp(0x0D),
        ])
    );
}

#[test]
fn single_character_in_brackets_is_resolved_by_the_layout() {
    assert_eq!(
        parse_str("<Q>", &us_layout()),
        Ok(vec![KeyDown(VK_SHIFT), KeyDown(0x51), KeyUp(0x51)])
    );
    assert_eq!(
        parse_str("<<>", &us_layout()),
        Ok(vec![KeyDown(VK_SHIFT), KeyDown(VK_OEM_COMMA), KeyUp(VK_OEM_COMMA)])
    );
}

#[test]
fn combination_goes_down_in_order_and_up_in_reverse() {
    assert_eq!(
        parse_str("<ctrl+c>", &us_layout()),
        Ok(vec![KeyDown(VK_CONTROL), KeyDown(0x43), KeyUp(0x43), KeyUp(VK_CONTROL)])
    );
    assert_eq!(
        parse_str("<ctrl+alt+del>", &us_layout()),
        Ok(vec![
            KeyDown(VK_CONTROL),
            KeyDown(VK_MENU),
            KeyDown(0x2E),
            KeyUp(0x2E),
            KeyUp(VK_MENU),
            KeyUp(VK_CONTROL),
        ])
    );
}

#[test]
fn combination_has_as_many_presses_as_releases() {
    let events = parse_str("<ctrl+shift+alt+k>", &us_layout()).unwrap();
    let downs: Vec<u8> = events
        .iter()
        .filter_map(|e| match e {
            KeyDown(vk) => Some(*vk),
            KeyUp(_) => None,
        })
        .collect();
    let mut ups: Vec<u8> = events
        .iter()
        .filter_map(|e| match e {
            KeyUp(vk) => Some(*vk),
            KeyDown(_) => None,
        })
        .collect();
    ups.reverse();
    assert_eq!(downs, vec![VK_CONTROL, VK_SHIFT, VK_MENU, 0x4B]);
    assert_eq!(downs, ups);
    assert_eq!(events.len(), 8);
    for (i, event) in events.iter().enumerate() {
        assert_eq!(matches!(event, KeyDown(_)), i < 4);
    }
}

#[test]
fn press_and_release_lists() {
    let layout = us_layout();
    assert_eq!(parse_str("<ctrl+>", &layout), Ok(vec![KeyDown(VK_CONTROL)]));
    assert_eq!(parse_str("<ctrl->", &layout), Ok(vec![KeyUp(VK_CONTROL)]));
    assert_eq!(
        parse_str("<ctrl+alt+a->", &layout),
        Ok(vec![KeyDown(VK_CONTROL), KeyDown(VK_MENU), KeyUp(0x41)])
    );
    assert_eq!(
        parse_str("<win+>23<win->", &layout),
        Ok(vec![
            KeyDown(VK_LWIN),
            KeyDown(0x32),
            KeyUp(0x32),
            KeyDown(0x33),
            KeyUp(0x33),
            KeyUp(VK_LWIN),
        ])
    );
}

#[test]
fn held_shift_is_tracked_across_groups() {
    // An explicit press of shift is recorded: the capital letter presses
    // no second shift, and the small letter releases the one held.
    assert_eq!(
        parse_str("<lshift+>Ab", &us_layout()),
        Ok(vec![
            KeyDown(0xA0),
            KeyDown(0x41),
            KeyUp(0x41),
            KeyUp(0xA0),
            KeyDown(0x42),
            KeyUp(0x42),
        ])
    );
}

#[test]
fn mixed_operators_in_a_combination_are_refused() {
    let layout = us_layout();
    assert_eq!(parse_str("<ctrl+a-b>", &layout), Err(KeyError::MixedOperatorsInCombination));
    assert_eq!(parse_str("<ctrl-c>", &layout), Err(KeyError::MixedOperatorsInCombination));
    assert_eq!(parse_str("<a-b+c>", &layout), Err(KeyError::MixedOperatorsInCombination));
}

#[test]
fn separator_needs_a_key_before_it() {
    let layout = us_layout();
    assert_eq!(parse_str("<+a>", &layout), Err(KeyError::SeparatorWithoutPrecedingKey));
    assert_eq!(parse_str("<a++b>", &layout), Err(KeyError::SeparatorWithoutPrecedingKey));
    assert_eq!(parse_str("<ctrl+->", &layout), Err(KeyError::SeparatorWithoutPrecedingKey));
}

#[test]
fn empty_group_is_refused() {
    assert_eq!(parse_str("<>", &us_layout()), Err(KeyError::EmptyBracketGroup));
    assert_eq!(parse_str("ab<>", &us_layout()), Err(KeyError::EmptyBracketGroup));
}

#[test]
fn unterminated_group_is_refused() {
    let layout = us_layout();
    assert_eq!(parse_str("<ctrl", &layout), Err(KeyError::UnterminatedBracket));
    assert_eq!(parse_str("ab<ctrl+c", &layout), Err(KeyError::UnterminatedBracket));
    assert_eq!(parse_str("<ctrl+c><", &layout), Err(KeyError::UnterminatedBracket));
}

#[test]
fn unknown_key_name_is_refused_with_the_name() {
    let layout = us_layout();
    assert_eq!(parse_str("<foo>", &layout), Err(KeyError::UnknownKeyName("foo".to_string())));
    assert_eq!(parse_str("<ctrl+Enter>", &layout), Err(KeyError::UnknownKeyName("Enter".to_string())));
    assert_eq!(parse_str("<13>", &layout), Err(KeyError::UnknownKeyName("13".to_string())));
}

#[test]
fn the_first_fault_in_reading_order_is_reported() {
    let layout = us_layout();
    assert_eq!(parse_str("<foo+bar", &layout), Err(KeyError::UnknownKeyName("foo".to_string())));
    assert_eq!(parse_str("\u{e9}<>", &layout), Err(KeyError::CharResolutionFailed('\u{e9}')));
    assert_eq!(parse_str("<>\u{e9}", &layout), Err(KeyError::EmptyBracketGroup));
}

#[test]
fn unresolvable_character_is_refused() {
    let layout = us_layout();
    assert_eq!(parse_str("a\u{e9}", &layout), Err(KeyError::CharResolutionFailed('\u{e9}')));
    assert_eq!(parse_str("<\u{e9}>", &layout), Err(KeyError::CharResolutionFailed('\u{e9}')));
    assert_eq!(parse_str("<lt>", &KeyLayout::new()), Err(KeyError::CharResolutionFailed('<')));
    assert_eq!(parse_char('a', &KeyLayout::new()), Err(KeyError::CharResolutionFailed('a')));
    assert_eq!(parse_char('a', &layout), Ok((0x41, false)));
}

#[test]
fn a_single_character_part_counts_characters_not_bytes() {
    let mut layout = us_layout();
    layout.insert('\u{e9}', 0x45, false);
    assert_eq!(parse_part("\u{e9}", &layout), Ok((0x45, false)));
    assert_eq!(parse_str("<\u{e9}>", &layout), Ok(vec![KeyDown(0x45), KeyUp(0x45)]));
}

#[test]
fn parts_are_resolved_in_the_order_of_the_tables() {
    let layout = us_layout();
    assert_eq!(parse_part("", &layout), Err(KeyError::EmptyKeyName));
    assert_eq!(parse_part("enter", &layout), Ok((0x0D, false)));
    assert_eq!(parse_part("f1", &layout), Ok((0x70, false)));
    assert_eq!(parse_part("ctrl", &layout), Ok((VK_CONTROL, false)));
    assert_eq!(parse_part("lt", &layout), Ok((VK_OEM_COMMA, true)));
    assert_eq!(parse_part("minus", &layout), Ok((VK_OEM_MINUS, false)));
    assert_eq!(parse_part("Z", &layout), Ok((0x5A, true)));
    assert_eq!(parse_part("z", &layout), Ok((0x5A, false)));
    assert_eq!(parse_part("zz", &layout), Err(KeyError::UnknownKeyName("zz".to_string())));
    assert_eq!(parse_part("ENTER", &layout), Err(KeyError::UnknownKeyName("ENTER".to_string())));
}

#[test]
fn key_names_stand_for_their_keys() {
    let expected: [(&str, u8); 122] = [
        ("backspace", 0x08),
        ("bs", 0x08),
        ("tab", 0x09),
        ("clear", 0x0C),
        ("return", 0x0D),
        ("enter", 0x0D),
        ("shift", 0x10),
        ("ctrl", 0x11),
        ("alt", 0x12),
        ("pause", 0x13),
        ("caps", 0x14),
        ("kana", 0x15),
        ("hangul", 0x15),
        ("ime_on", 0x16),
        ("junja", 0x17),
        ("final", 0x18),
        ("hanja", 0x19),
        ("kanji", 0x19),
        ("ime_off", 0x1A),
        ("esc", 0x1B),
        ("convert", 0x1C),
        ("nonconvert", 0x1D),
        ("accept", 0x1E),
        ("modechange", 0x1F),
        ("space", 0x20),
        ("pageup", 0x21),
        ("pagedown", 0x22),
        ("end", 0x23),
        ("home", 0x24),
        ("left", 0x25),
        ("up", 0x26),
        ("right", 0x27),
        ("down", 0x28),
        ("select", 0x29),
        ("print", 0x2A),
        ("execute", 0x2B),
        ("ps", 0x2C),
        ("printscreen", 0x2C),
        ("insert", 0x2D),
        ("ins", 0x2D),
        ("delete", 0x2E),
        ("del", 0x2E),
        ("help", 0x2F),
        ("win", 0x5B),
        ("lwin", 0x5B),
        ("rwin", 0x5C),
        ("apps", 0x5D),
        ("sleep", 0x5F),
        ("numpad0", 0x60),
        ("numpad1", 0x61),
        ("numpad2", 0x62),
        ("numpad3", 0x63),
        ("numpad4", 0x64),
        ("numpad5", 0x65),
        ("numpad6", 0x66),
        ("numpad7", 0x67),
        ("numpad8", 0x68),
        ("numpad9", 0x69),
        ("multiply", 0x6A),
        ("add", 0x6B),
        ("separator", 0x6C),
        ("subtract", 0x6D),
        ("decimal", 0x6E),
        ("divide", 0x6F),
        ("f1", 0x70),
        ("f2", 0x71),
        ("f3", 0x72),
        ("f4", 0x73),
        ("f5", 0x74),
        ("f6", 0x75),
        ("f7", 0x76),
        ("f8", 0x77),
        ("f9", 0x78),
        ("f10", 0x79),
        ("f11", 0x7A),
        ("f12", 0x7B),
        ("f13", 0x7C),
        ("f14", 0x7D),
        ("f15", 0x7E),
        ("f16", 0x7F),
        ("f17", 0x80),
        ("f18", 0x81),
        ("f19", 0x82),
        ("f20", 0x83),
        ("f21", 0x84),
        ("f22", 0x85),
        ("f23", 0x86),
        ("f24", 0x87),
        ("numlock", 0x90),
        ("scroll", 0x91),
        ("lshift", 0xA0),
        ("rshift", 0xA1),
        ("lctrl", 0xA2),
        ("rctrl", 0xA3),
        ("lalt", 0xA4),
        ("ralt", 0xA5),
        ("browser_back", 0xA6),
        ("browser_forward", 0xA7),
        ("browser_refresh", 0xA8),
        ("browser_stop", 0xA9),
        ("browser_search", 0xAA),
        ("browser_favorites", 0xAB),
        ("browser_home", 0xAC),
        ("volume_mute", 0xAD),
        ("volume_down", 0xAE),
        ("volume_up", 0xAF),
        ("media_next_track", 0xB0),
        ("media_prev_track", 0xB1),
        ("media_stop", 0xB2),
        ("media_play_pause", 0xB3),
        ("launch_mail", 0xB4),
        ("launch_media_select", 0xB5),
        ("launch_app1", 0xB6),
        ("launch_app2", 0xB7),
        ("attn", 0xF6),
        ("crsel", 0xF7),
        ("exsel", 0xF8),
        ("ereof", 0xF9),
        ("play", 0xFA),
        ("zoom", 0xFB),
        ("pa1", 0xFD),
        ("oem_clear", 0xFE),
    ];
    for (name, vk) in expected {
        assert_eq!(key_name_to_vk(name), Some(vk), "{}", name);
    }
    assert_eq!(key_name_to_vk(""), None);
    assert_eq!(key_name_to_vk("Tab"), None);
    assert_eq!(key_name_to_vk("f25"), None);
    assert_eq!(key_name_to_vk("lt"), None);
    assert_eq!(key_name_to_vk("a"), None);
}

#[test]
fn escape_names_stand_for_the_syntax_characters() {
    assert_eq!(escaped_key_char("lt"), Some('<'));
    assert_eq!(escaped_key_char("gt"), Some('>'));
    assert_eq!(escaped_key_char("minus"), Some('-'));
    assert_eq!(escaped_key_char("plus"), Some('+'));
    assert_eq!(escaped_key_char("LT"), None);
    assert_eq!(escaped_key_char(""), None);
    assert_eq!(escaped_key_char("enter"), None);
}

#[test]
fn modifier_keys_fall_into_four_classes() {
    for vk in 0..=255u8 {
        let classes = [is_shift_key(vk), is_ctrl_key(vk), is_alt_key(vk), is_win_key(vk)];
        let n = classes.iter().filter(|b| **b).count();
        assert!(n <= 1);
        let expected = match vk {
            0x10 | 0xA0 | 0xA1 => Some(Modifier::Shift),
            0x11 | 0xA2 | 0xA3 => Some(Modifier::Ctrl),
            0x12 | 0xA4 | 0xA5 => Some(Modifier::Alt),
            0x5B | 0x5C => Some(Modifier::Win),
            _ => None,
        };
        assert_eq!(classify(vk), expected);
        assert_eq!(is_shift_key(vk), expected == Some(Modifier::Shift));
        assert_eq!(is_ctrl_key(vk), expected == Some(Modifier::Ctrl));
        assert_eq!(is_alt_key(vk), expected == Some(Modifier::Alt));
        assert_eq!(is_win_key(vk), expected == Some(Modifier::Win));
    }
}

#[test]
fn the_characters_to_scan_are_those_of_the_text_and_of_the_syntax() {
    assert_eq!(chars_to_scan(""), vec!['<', '>', '-', '+']);
    assert_eq!(chars_to_scan("a<lt>\u{e9}"), vec!['a', '<', 'l', 't', '>', '\u{e9}', '<', '>', '-', '+']);
}

#[test]
fn a_layout_of_the_characters_to_scan_compiles_like_the_whole_layout() {
    let whole = us_layout();
    for text in ["aBc", "<lt>x<gt>", "<ctrl+shift+Q>", "<plus><minus>9", "<nokey>", "\u{e9}", "<\u{e9}>"] {
        let mut scanned = KeyLayout::new();
        for c in chars_to_scan(text) {
            if let Some((vk, shift)) = whole.resolve(c) {
                scanned.insert(c, vk, shift);
            }
        }
        assert_eq!(parse_str(text, &scanned), parse_str(text, &whole), "{}", text);
    }
}

#[test]
fn scans_are_decoded() {
    assert_eq!(decode_scan(-1), None);
    assert_eq!(decode_scan(0x0041), Some((0x41, false)));
    assert_eq!(decode_scan(0x0141), Some((0x41, true)));
    assert_eq!(decode_scan(0x01BC), Some((0xBC, true)));
    assert_eq!(decode_scan(0x0200 | 0x43), Some((0x43, false)));
    assert_eq!(decode_scan(0x0700 | 0x43), Some((0x43, true)));
    assert_eq!(decode_scan(0), Some((0, false)));
    assert_eq!(decode_scan(-2), Some((0xFE, true)));
}

#[test]
fn layout_records_scans() {
    let mut layout = KeyLayout::new();
    assert_eq!(layout.resolve('a'), None);
    layout.record_scan('a', 0x0041);
    layout.record_scan('A', 0x0141);
    layout.record_scan('\u{4e2d}', -1);
    assert_eq!(layout.resolve('a'), Some((0x41, false)));
    assert_eq!(layout.resolve('A'), Some((0x41, true)));
    assert_eq!(layout.resolve('\u{4e2d}'), None);
    layout.record_scan('a', -1);
    assert_eq!(layout.resolve('a'), None);
    layout.insert('a', 0x51, true);
    assert_eq!(layout.resolve('a'), Some((0x51, true)));
    layout.remove('a');
    assert_eq!(layout.resolve('a'), None);
    assert_eq!(layout.resolve('A'), Some((0x41, true)));
}

#[test]
fn key_state_starts_idle_and_tracks_modifiers() {
    let mut state = KeyState::new();
    assert_eq!(state, KeyState { shift: None, ctrl: None, alt: None, win: None });
    let mut events = Vec::new();
    push_key_down(0xA1, &mut events, &mut state);
    push_key_down(0x11, &mut events, &mut state);
    push_key_down(0xA4, &mut events, &mut state);
    push_key_down(0x5C, &mut events, &mut state);
    push_key_down(0x41, &mut events, &mut state);
    assert_eq!(
        state,
        KeyState { shift: Some(0xA1), ctrl: Some(0x11), alt: Some(0xA4), win: Some(0x5C) }
    );
    assert_eq!(
        events,
        vec![KeyDown(0xA1), KeyDown(0x11), KeyDown(0xA4), KeyDown(0x5C), KeyDown(0x41)]
    );
    // The release of any key of a class clears the slot of the class.
    push_key_up(0x10, &mut events, &mut state);
    push_key_up(0x41, &mut events, &mut state);
    assert_eq!(
        state,
        KeyState { shift: None, ctrl: Some(0x11), alt: Some(0xA4), win: Some(0x5C) }
    );
    assert_eq!(events[5..], [KeyUp(0x10), KeyUp(0x41)]);
}

#[test]
fn literal_keys_adjust_shift() {
    let mut state = KeyState::new();
    let mut events = Vec::new();
    assert_eq!(push_key_down_and_up(0x41, true, &mut events, &mut state), Ok(()));
    assert_eq!(events, vec![KeyDown(VK_SHIFT), KeyDown(0x41), KeyUp(0x41)]);
    assert_eq!(state.shift, Some(VK_SHIFT));
    assert_eq!(push_key_down_and_up(0x42, true, &mut events, &mut state), Ok(()));
    assert_eq!(events[3..], [KeyDown(0x42), KeyUp(0x42)]);
    assert_eq!(state.shift, Some(VK_SHIFT));
    assert_eq!(push_key_down_and_up(0x43, false, &mut events, &mut state), Ok(()));
    assert_eq!(events[5..], [KeyUp(VK_SHIFT), KeyDown(0x43), KeyUp(0x43)]);
    assert_eq!(state.shift, None);
    assert_eq!(push_key_down_and_up(0x44, false, &mut events, &mut state), Ok(()));
    assert_eq!(events[8..], [KeyDown(0x44), KeyUp(0x44)]);
    assert_eq!(state, KeyState::new());
}

#[test]
fn literal_key_releases_the_shift_that_is_held() {
    let mut state = KeyState { shift: Some(0xA1), ctrl: Some(0x11), alt: None, win: None };
    let mut events = vec![KeyDown(0x30)];
    assert_eq!(push_key_down_and_up(0x41, false, &mut events, &mut state), Ok(()));
    assert_eq!(events, vec![KeyDown(0x30), KeyUp(0xA1), KeyDown(0x41), KeyUp(0x41)]);
    assert_eq!(state, KeyState { shift: None, ctrl: Some(0x11), alt: None, win: None });
}

#[test]
fn held_modifiers_are_released_but_for_alt() {
    let mut state = KeyState { shift: Some(0xA0), ctrl: Some(0xA3), alt: Some(0x12), win: Some(0x5B) };
    let mut events = vec![KeyDown(0x41)];
    mod_keys_up(&mut events, &mut state);
    assert_eq!(events, vec![KeyDown(0x41), KeyUp(0x5B), KeyUp(0xA0), KeyUp(0xA3)]);
    assert_eq!(state, KeyState { shift: None, ctrl: None, alt: Some(0x12), win: None });
    mod_keys_up(&mut events, &mut state);
    assert_eq!(events.len(), 4);
    let mut state = KeyState { shift: None, ctrl: Some(0x11), alt: None, win: None };
    let mut events = Vec::new();
    mod_keys_up(&mut events, &mut state);
    assert_eq!(events, vec![KeyUp(0x11)]);
}

#[test]
fn groups_are_emitted_by_their_form() {
    let mut state = KeyState::new();
    let mut events = Vec::new();
    assert_eq!(
        push_group(&vec![], &vec![], &mut events, &mut state),
        Err(KeyError::EmptyBracketGroup)
    );
    assert_eq!(push_group(&vec![(0x41, true)], &vec![], &mut events, &mut state), Ok(()));
    assert_eq!(events, vec![KeyDown(VK_SHIFT), KeyDown(0x41), KeyUp(0x41)]);
    assert_eq!(state.shift, Some(VK_SHIFT));

    // A list of presses and releases pays no regard to shift.
    let mut events = Vec::new();
    assert_eq!(
        push_group(&vec![(0x11, false), (0x41, true)], &vec![true, false], &mut events, &mut state),
        Ok(())
    );
    assert_eq!(events, vec![KeyDown(0x11), KeyUp(0x41)]);
    assert_eq!(state, KeyState { shift: Some(VK_SHIFT), ctrl: Some(0x11), alt: None, win: None });

    let mut events = vec![KeyDown(0x30)];
    assert_eq!(
        push_group(&vec![(0x11, false), (0x41, false)], &vec![false], &mut events, &mut state),
        Err(KeyError::MixedOperatorsInCombination)
    );
    assert_eq!(events, vec![KeyDown(0x30)]);
    assert_eq!(
        push_group(&vec![(0x11, false), (0x41, false)], &vec![true], &mut events, &mut state),
        Ok(())
    );
    assert_eq!(events, vec![KeyDown(0x30), KeyDown(0x11), KeyDown(0x41), KeyUp(0x41), KeyUp(0x11)]);
    assert_eq!(state, KeyState { shift: Some(VK_SHIFT), ctrl: None, alt: None, win: None });
}

#[test]
fn injection_records_carry_the_key_and_the_direction() {
    assert_eq!(input_keys(&[]), vec![]);
    assert_eq!(
        input_keys(&[KeyDown(0x41), KeyUp(0x41), KeyUp(0xFF)]),
        vec![
            KeyRecord { vk: 0x41, flags: 0 },
            KeyRecord { vk: 0x41, flags: 2 },
            KeyRecord { vk: 0xFF, flags: 2 },
        ]
    );
}

#[test]
fn input_reports_the_fault_of_the_text() {
    assert_eq!(input("<ctrl+", &us_layout()), Err(KeyError::UnterminatedBracket));
    assert_eq!(input("<nokey>", &us_layout()), Err(KeyError::UnknownKeyName("nokey".to_string())));
}

#[test]
fn hotkey_of_a_combination() {
    let layout = us_layout();
    let descriptor = compile_hotkey("<ctrl+alt+k>", &layout).unwrap();
    assert_eq!(
        descriptor,
        HotkeyDescriptor { shift: false, ctrl: true, alt: true, win: false, vk: 0x4B }
    );
    assert_eq!(descriptor.modifier_mask(), MOD_CONTROL | MOD_ALT);
    let descriptor = compile_hotkey("<lshift+rwin+f5>", &layout).unwrap();
    assert_eq!(
        descriptor,
        HotkeyDescriptor { shift: true, ctrl: false, alt: false, win: true, vk: 0x74 }
    );
    assert_eq!(descriptor.modifier_mask(), MOD_SHIFT | MOD_WIN);
    let descriptor = compile_hotkey("<k+ctrl>", &layout).unwrap();
    assert_eq!(
        descriptor,
        HotkeyDescriptor { shift: false, ctrl: true, alt: false, win: false, vk: 0x4B }
    );
}

#[test]
fn hotkey_faults() {
    let layout = us_layout();
    assert_eq!(compile_hotkey("<ctrl+ctrl+k>", &layout), Err(KeyError::DuplicateModifier));
    assert_eq!(compile_hotkey("<ctrl+lctrl+k>", &layout), Err(KeyError::DuplicateModifier));
    assert_eq!(compile_hotkey("<ctrl+alt+>", &layout), Err(KeyError::NoMainKey));
    assert_eq!(compile_hotkey("<ctrl+alt>", &layout), Err(KeyError::NoMainKey));
    assert_eq!(compile_hotkey("", &layout), Err(KeyError::NoMainKey));
    assert_eq!(compile_hotkey("<ctrl+a+b>", &layout), Err(KeyError::MultipleMainKeys));
    assert_eq!(compile_hotkey("<a+b+ctrl+ctrl>", &layout), Err(KeyError::MultipleMainKeys));
    assert_eq!(compile_hotkey("<ctrl+ctrl+a+b>", &layout), Err(KeyError::DuplicateModifier));
    assert_eq!(compile_hotkey("<ctrl+k", &layout), Err(KeyError::UnterminatedBracket));
    assert_eq!(compile_hotkey("<ctrl-k>", &layout), Err(KeyError::MixedOperatorsInCombination));
    assert_eq!(
        compile_hotkey("<ctrl+kk>", &layout),
        Err(KeyError::UnknownKeyName("kk".to_string()))
    );
}

#[test]
fn hotkey_reads_the_presses_before_the_first_release() {
    assert_eq!(
        hotkey_from_events(&[KeyDown(0x11), KeyDown(0x41), KeyUp(0x41), KeyDown(0x11), KeyDown(0x42)]),
        Ok(HotkeyDescriptor { shift: false, ctrl: true, alt: false, win: false, vk: 0x41 })
    );
    assert_eq!(hotkey_from_events(&[KeyUp(0x41), KeyDown(0x41)]), Err(KeyError::NoMainKey));
    assert_eq!(hotkey_from_events(&[]), Err(KeyError::NoMainKey));
    assert_eq!(
        hotkey_from_events(&[KeyDown(0x41)]),
        Ok(HotkeyDescriptor { shift: false, ctrl: false, alt: false, win: false, vk: 0x41 })
    );
}

#[test]
fn modifier_mask_adds_the_flags() {
    assert_eq!((MOD_ALT, MOD_CONTROL, MOD_SHIFT, MOD_WIN), (1, 2, 4, 8));
    for bits in 0..16u32 {
        let descriptor = HotkeyDescriptor {
            alt: bits & 1 != 0,
            ctrl: bits & 2 != 0,
            shift: bits & 4 != 0,
            win: bits & 8 != 0,
            vk: 0x41,
        };
        assert_eq!(descriptor.modifier_mask(), bits);
    }
}

#[test]
fn watch_set_holds_each_key_once() {
    let events = parse_str("<ctrl+c>aA", &us_layout()).unwrap();
    assert_eq!(watch_set(&events), HashSet::from([VK_CONTROL, 0x43, 0x41, VK_SHIFT]));
    assert_eq!(watch_set(&[]), HashSet::new());
    assert_eq!(watch_set(&[KeyUp(7)]), HashSet::from([7]));
}

#[test]
fn watch_set_is_the_same_for_every_order() {
    let events = parse_str("<ctrl+alt+del>xY<win+>", &us_layout()).unwrap();
    let first = watch_set(&events);
    assert_eq!(watch_set(&events), first);
    let mut reversed = events.clone();
    reversed.reverse();
    assert_eq!(watch_set(&reversed), first);
    let mut rotated = events.clone();
    rotated.rotate_left(3);
    assert_eq!(watch_set(&rotated), first);
    assert_eq!(first, HashSet::from([VK_CONTROL, VK_MENU, 0x2E, 0x58, VK_SHIFT, 0x59, VK_LWIN]));
}

#[test]
fn wait_keys_up_compiles_to_the_keys_to_watch() {
    let layout = us_layout();
    assert_eq!(wait_keys_up("<ctrl+y>", &layout), Ok(HashSet::from([VK_CONTROL, 0x59])));
    assert_eq!(wait_keys_up("", &layout), Ok(HashSet::new()));
    assert_eq!(wait_keys_up("<ctrl+y", &layout), Err(KeyError::UnterminatedBracket));
}

#[test]
fn wait_polls_each_key_until_it_is_released() {
    let mut wait = KeyWait::new(vec![0x11, 0x59]);
    assert_eq!(wait.begin(), WaitAction::Poll(0x11));
    assert_eq!(wait.polled(false), WaitAction::Sleep);
    assert_eq!(wait.slept(), WaitAction::Poll(0x11));
    assert_eq!(wait.polled(false), WaitAction::Sleep);
    assert_eq!(wait.slept(), WaitAction::Poll(0x11));
    assert_eq!(wait.polled(true), WaitAction::Poll(0x59));
    assert_eq!(wait.begin(), WaitAction::Poll(0x59));
    assert_eq!(wait.polled(true), WaitAction::Done);
    assert_eq!(wait.begin(), WaitAction::Done);
    assert_eq!(wait.polled(true), WaitAction::Done);
    assert_eq!(wait.polled(false), WaitAction::Done);
}

#[test]
fn wait_for_no_key_is_done_at_once() {
    let wait = KeyWait::new(vec![]);
    assert_eq!(wait.begin(), WaitAction::Done);
}

#[test]
fn wait_times_out_after_the_limit_of_sleeps() {
    let mut wait = KeyWait::new(vec![0x41, 0x42]);
    assert_eq!(wait.begin(), WaitAction::Poll(0x41));
    // The sleeps are counted over all keys.
    for _ in 0..10000 {
        assert_eq!(wait.polled(false), WaitAction::Sleep);
        assert_eq!(wait.slept(), WaitAction::Poll(0x41));
    }
    assert_eq!(wait.polled(true), WaitAction::Poll(0x42));
    for _ in 10000..30000 {
        assert_eq!(wait.polled(false), WaitAction::Sleep);
        assert_eq!(wait.slept(), WaitAction::Poll(0x42));
    }
    assert_eq!(wait.polled(false), WaitAction::Sleep);
    assert_eq!(wait.slept(), WaitAction::TimedOut);
    assert_eq!(wait.begin(), WaitAction::TimedOut);
    assert_eq!(wait.polled(true), WaitAction::TimedOut);
    assert_eq!(wait.slept(), WaitAction::TimedOut);
}
