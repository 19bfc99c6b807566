use hotkeyz::keyboard::hotkey::{MOD_ALT, MOD_CONTROL, MOD_SHIFT, MOD_WIN};
use hotkeyz::keyboard::keys::{
    key_name_to_vk, VK_CONTROL, VK_LCONTROL, VK_LMENU, VK_LSHIFT, VK_LWIN, VK_MENU, VK_RCONTROL,
    VK_RMENU, VK_RSHIFT, VK_RWIN, VK_SHIFT,
};
use hotkeyz::keyboard::wait::WAIT_LIMIT;
use hotkeyz::keyboard::KEYEVENTF_KEYUP;
use hotkeyz::mouse::{
    ABSOLUTE_MAX, MOUSEEVENTF_ABSOLUTE, MOUSEEVENTF_HWHEEL, MOUSEEVENTF_LEFTDOWN,
    MOUSEEVENTF_LEFTUP, MOUSEEVENTF_MIDDLEDOWN, MOUSEEVENTF_MIDDLEUP, MOUSEEVENTF_MOVE,
    MOUSEEVENTF_RIGHTDOWN, MOUSEEVENTF_RIGHTUP, MOUSEEVENTF_WHEEL, MOUSEEVENTF_XDOWN,
    MOUSEEVENTF_XUP, XBUTTON1, XBUTTON2,
};
use windows::Win32::UI::Input::KeyboardAndMouse as platform;
use windows::Win32::UI::WindowsAndMessaging as messaging;

#[test]
fn modifier_flags_are_those_of_the_platform() {
    assert_eq!(MOD_ALT, platform::MOD_ALT.0);
    assert_eq!(MOD_CONTROL, platform::MOD_CONTROL.0);
    assert_eq!(MOD_SHIFT, platform::MOD_SHIFT.0);
    assert_eq!(MOD_WIN, platform::MOD_WIN.0);
}

#[test]
fn key_event_flag_is_that_of_the_platform() {
    assert_eq!(KEYEVENTF_KEYUP, platform::KEYEVENTF_KEYUP.0);
}

#[test]
fn mouse_event_flags_are_those_of_the_platform() {
    assert_eq!(MOUSEEVENTF_MOVE, platform::MOUSEEVENTF_MOVE.0);
    assert_eq!(MOUSEEVENTF_LEFTDOWN, platform::MOUSEEVENTF_LEFTDOWN.0);
    assert_eq!(MOUSEEVENTF_LEFTUP, platform::MOUSEEVENTF_LEFTUP.0);
    assert_eq!(MOUSEEVENTF_RIGHTDOWN, platform::MOUSEEVENTF_RIGHTDOWN.0);
    assert_eq!(MOUSEEVENTF_RIGHTUP, platform::MOUSEEVENTF_RIGHTUP.0);
    assert_eq!(MOUSEEVENTF_MIDDLEDOWN, platform::MOUSEEVENTF_MIDDLEDOWN.0);
    assert_eq!(MOUSEEVENTF_MIDDLEUP, platform::MOUSEEVENTF_MIDDLEUP.0);
    assert_eq!(MOUSEEVENTF_XDOWN, platform::MOUSEEVENTF_XDOWN.0);
    assert_eq!(MOUSEEVENTF_XUP, platform::MOUSEEVENTF_XUP.0);
    assert_eq!(MOUSEEVENTF_WHEEL, platform::MOUSEEVENTF_WHEEL.0);
    assert_eq!(MOUSEEVENTF_HWHEEL, platform::MOUSEEVENTF_HWHEEL.0);
    assert_eq!(MOUSEEVENTF_ABSOLUTE, platform::MOUSEEVENTF_ABSOLUTE.0);
    assert_eq!(XBUTTON1 as u32, messaging::XBUTTON1.0);
    assert_eq!(XBUTTON2 as u32, messaging::XBUTTON2.0);
}

#[test]
fn limits_have_their_values() {
    assert_eq!(ABSOLUTE_MAX, 65535);
    assert_eq!(WAIT_LIMIT, 30000);
}

#[test]
fn modifier_keys_are_those_of_the_platform() {
    assert_eq!(VK_SHIFT as u16, platform::VK_SHIFT.0);
    assert_eq!(VK_CONTROL as u16, platform::VK_CONTROL.0);
    assert_eq!(VK_MENU as u16, platform::VK_MENU.0);
    assert_eq!(VK_LWIN as u16, platform::VK_LWIN.0);
    assert_eq!(VK_RWIN as u16, platform::VK_RWIN.0);
    assert_eq!(VK_LSHIFT as u16, platform::VK_LSHIFT.0);
    assert_eq!(VK_RSHIFT as u16, platform::VK_RSHIFT.0);
    assert_eq!(VK_LCONTROL as u16, platform::VK_LCONTROL.0);
    assert_eq!(VK_RCONTROL as u16, platform::VK_RCONTROL.0);
    assert_eq!(VK_LMENU as u16, platform::VK_LMENU.0);
    assert_eq!(VK_RMENU as u16, platform::VK_RMENU.0);
}

#[test]
fn key_names_stand_for_the_keys_of_the_platform() {
    let keys = [
        ("backspace", platform::VK_BACK),
        ("bs", platform::VK_BACK),
        ("tab", platform::VK_TAB),
        ("clear", platform::VK_CLEAR),
        ("return", platform::VK_RETURN),
        ("enter", platform::VK_RETURN),
        ("shift", platform::VK_SHIFT),
        ("ctrl", platform::VK_CONTROL),
        ("alt", platform::VK_MENU),
        ("pause", platform::VK_PAUSE),
        ("caps", platform::VK_CAPITAL),
        ("kana", platform::VK_KANA),
        ("hangul", platform::VK_HANGUL),
        ("ime_on", platform::VK_IME_ON),
        ("junja", platform::VK_JUNJA),
        ("final", platform::VK_FINAL),
        ("hanja", platform::VK_HANJA),
        ("kanji", platform::VK_KANJI),
        ("ime_off", platform::VK_IME_OFF),
        ("esc", platform::VK_ESCAPE),
        ("convert", platform::VK_CONVERT),
        ("nonconvert", platform::VK_NONCONVERT),
        ("accept", platform::VK_ACCEPT),
        ("modechange", platform::VK_MODECHANGE),
        ("space", platform::VK_SPACE),
        ("pageup", platform::VK_PRIOR),
        ("pagedown", platform::VK_NEXT),
        ("end", platform::VK_END),
        ("home", platform::VK_HOME),
        ("left", platform::VK_LEFT),
        ("up", platform::VK_UP),
        ("right", platform::VK_RIGHT),
        ("down", platform::VK_DOWN),
        ("select", platform::VK_SELECT),
        ("print", platform::VK_PRINT),
        ("execute", platform::VK_EXECUTE),
        ("ps", platform::VK_SNAPSHOT),
        ("printscreen", platform::VK_SNAPSHOT),
        ("insert", platform::VK_INSERT),
        ("ins", platform::VK_INSERT),
        ("delete", platform::VK_DELETE),
        ("del", platform::VK_DELETE),
        ("help", platform::VK_HELP),
        ("win", platform::VK_LWIN),
        ("lwin", platform::VK_LWIN),
        ("rwin", platform::VK_RWIN),
        ("apps", platform::VK_APPS),
        ("sleep", platform::VK_SLEEP),
        ("numpad0", platform::VK_NUMPAD0),
        ("numpad1", platform::VK_NUMPAD1),
        ("numpad2", platform::VK_NUMPAD2),
        ("numpad3", platform::VK_NUMPAD3),
        ("numpad4", platform::VK_NUMPAD4),
        ("numpad5", platform::VK_NUMPAD5),
        ("numpad6", platform::VK_NUMPAD6),
        ("numpad7", platform::VK_NUMPAD7),
        ("numpad8", platform::VK_NUMPAD8),
        ("numpad9", platform::VK_NUMPAD9),
        ("multiply", platform::VK_MULTIPLY),
        ("add", platform::VK_ADD),
        ("separator", platform::VK_SEPARATOR),
        ("subtract", platform::VK_SUBTRACT),
        ("decimal", platform::VK_DECIMAL),
        ("divide", platform::VK_DIVIDE),
        ("f1", platform::VK_F1),
        ("f2", platform::VK_F2),
        ("f3", platform::VK_F3),
        ("f4", platform::VK_F4),
        ("f5", platform::VK_F5),
        ("f6", platform::VK_F6),
        ("f7", platform::VK_F7),
        ("f8", platform::VK_F8),
        ("f9", platform::VK_F9),
        ("f10", platform::VK_F10),
        ("f11", platform::VK_F11),
        ("f12", platform::VK_F12),
        ("f13", platform::VK_F13),
        ("f14", platform::VK_F14),
        ("f15", platform::VK_F15),
        ("f16", platform::VK_F16),
        ("f17", platform::VK_F17),
        ("f18", platform::VK_F18),
        ("f19", platform::VK_F19),
        ("f20", platform::VK_F20),
        ("f21", platform::VK_F21),
        ("f22", platform::VK_F22),
        ("f23", platform::VK_F23),
        ("f24", platform::VK_F24),
        ("numlock", platform::VK_NUMLOCK),
        ("scroll", platform::VK_SCROLL),
        ("lshift", platform::VK_LSHIFT),
        ("rshift", platform::VK_RSHIFT),
        ("lctrl", platform::VK_LCONTROL),
        ("rctrl", platform::VK_RCONTROL),
        ("lalt", platform::VK_LMENU),
        ("ralt", platform::VK_RMENU),
        ("browser_back", platform::VK_BROWSER_BACK),
        ("browser_forward", platform::VK_BROWSER_FORWARD),
        ("browser_refresh", platform::VK_BROWSER_REFRESH),
        ("browser_stop", platform::VK_BROWSER_STOP),
        ("browser_search", platform::VK_BROWSER_SEARCH),
        ("browser_favorites", platform::VK_BROWSER_FAVORITES),
        ("browser_home", platform::VK_BROWSER_HOME),
        ("volume_mute", platform::VK_VOLUME_MUTE),
        ("volume_down", platform::VK_VOLUME_DOWN),
        ("volume_up", platform::VK_VOLUME_UP),
        ("media_next_track", platform::VK_MEDIA_NEXT_TRACK),
        ("media_prev_track", platform::VK_MEDIA_PREV_TRACK),
        ("media_stop", platform::VK_MEDIA_STOP),
        ("media_play_pause", platform::VK_MEDIA_PLAY_PAUSE),
        ("launch_mail", platform::VK_LAUNCH_MAIL),
        ("launch_media_select", platform::VK_LAUNCH_MEDIA_SELECT),
        ("launch_app1", platform::VK_LAUNCH_APP1),
        ("launch_app2", platform::VK_LAUNCH_APP2),
        ("attn", platform::VK_ATTN),
        ("crsel", platform::VK_CRSEL),
        ("exsel", platform::VK_EXSEL),
        ("ereof", platform::VK_EREOF),
        ("play", platform::VK_PLAY),
        ("zoom", platform::VK_ZOOM),
        ("pa1", platform::VK_PA1),
        ("oem_clear", platform::VK_OEM_CLEAR),
    ];
    assert_eq!(keys.len(), 122);
    for (name, key) in keys {
        assert_eq!(key_name_to_vk(name).map(u16::from), Some(key.0), "{}", name);
    }
}
