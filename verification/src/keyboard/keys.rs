//! Key identifiers: the modifier classes, the table of key names and the
//! four escape names of the key-sequence language.

use vstd::prelude::*;

verus! {

/// The generic shift key.
pub const VK_SHIFT: u8 = 0x10;

/// The generic control key.
pub const VK_CONTROL: u8 = 0x11;

/// The generic alt key.
pub const VK_MENU: u8 = 0x12;

/// The left Windows key.
pub const VK_LWIN: u8 = 0x5B;

/// The right Windows key.
pub const VK_RWIN: u8 = 0x5C;

/// The left shift key.
pub const VK_LSHIFT: u8 = 0xA0;

/// The right shift key.
pub const VK_RSHIFT: u8 = 0xA1;

/// The left control key.
pub const VK_LCONTROL: u8 = 0xA2;

/// The right control key.
pub const VK_RCONTROL: u8 = 0xA3;

/// The left alt key.
pub const VK_LMENU: u8 = 0xA4;

/// The right alt key.
pub const VK_RMENU: u8 = 0xA5;

/// One of the four classes of modifier keys.
#[derive(Clone, Copy, Debug, PartialEq, Eq, Structural)]
pub enum Modifier {
    Shift,
    Ctrl,
    Alt,
    Win,
}

/// `vk` is the generic, the left or the right shift key.
pub open spec fn shift_key(vk: u8) -> bool {
    vk == VK_SHIFT || vk == VK_LSHIFT || vk == VK_RSHIFT
}

/// `vk` is the generic, the left or the right control key.
pub open spec fn ctrl_key(vk: u8) -> bool {
    vk == VK_CONTROL || vk == VK_LCONTROL || vk == VK_RCONTROL
}

/// `vk` is the generic, the left or the right alt key.
pub open spec fn alt_key(vk: u8) -> bool {
    vk == VK_MENU || vk == VK_LMENU || vk == VK_RMENU
}

/// `vk` is the left or the right Windows key.
pub open spec fn win_key(vk: u8) -> bool {
    vk == VK_LWIN || vk == VK_RWIN
}

/// The modifier class of `vk`, or `None` for a key that is no modifier.
pub open spec fn modifier_of(vk: u8) -> Option<Modifier> {
    if shift_key(vk) {
        Some(Modifier::Shift)
    } else if ctrl_key(vk) {
        Some(Modifier::Ctrl)
    } else if alt_key(vk) {
        Some(Modifier::Alt)
    } else if win_key(vk) {
        Some(Modifier::Win)
    } else {
        None
    }
}

/// Whether `vk` is a shift key.
#[verifier::when_used_as_spec(shift_key)]
pub fn is_shift_key(vk: u8) -> (b: bool)
    ensures
        b == shift_key(vk),
{
    vk == VK_SHIFT || vk == VK_LSHIFT || vk == VK_RSHIFT
}

/// Whether `vk` is a control key.
#[verifier::when_used_as_spec(ctrl_key)]
pub fn is_ctrl_key(vk: u8) -> (b: bool)
    ensures
        b == ctrl_key(vk),
{
    vk == VK_CONTROL || vk == VK_LCONTROL || vk == VK_RCONTROL
}

/// Whether `vk` is an alt key.
#[verifier::when_used_as_spec(alt_key)]
pub fn is_alt_key(vk: u8) -> (b: bool)
    ensures
        b == alt_key(vk),
{
    vk == VK_MENU || vk == VK_LMENU || vk == VK_RMENU
}

/// Whether `vk` is a Windows key.
#[verifier::when_used_as_spec(win_key)]
pub fn is_win_key(vk: u8) -> (b: bool)
    ensures
        b == win_key(vk),
{
    vk == VK_LWIN || vk == VK_RWIN
}

/// Classifies `vk`: its modifier class, or `None` for any other key.
pub fn classify(vk: u8) -> (m: Option<Modifier>)
    ensures
        m == modifier_of(vk),
{
    if is_shift_key(vk) {
        Some(Modifier::Shift)
    } else if is_ctrl_key(vk) {
        Some(Modifier::Ctrl)
    } else if is_alt_key(vk) {
        Some(Modifier::Alt)
    } else if is_win_key(vk) {
        Some(Modifier::Win)
    } else {
        None
    }
}

/// A key belongs to at most one modifier class, and `modifier_of` names the
/// class it belongs to.
pub proof fn lemma_modifier_classes_disjoint(vk: u8)
    ensures
        !(shift_key(vk) && ctrl_key(vk)),
        !(shift_key(vk) && alt_key(vk)),
        !(shift_key(vk) && win_key(vk)),
        !(ctrl_key(vk) && alt_key(vk)),
        !(ctrl_key(vk) && win_key(vk)),
        !(alt_key(vk) && win_key(vk)),
        shift_key(vk) <==> modifier_of(vk) == Some(Modifier::Shift),
        ctrl_key(vk) <==> modifier_of(vk) == Some(Modifier::Ctrl),
        alt_key(vk) <==> modifier_of(vk) == Some(Modifier::Alt),
        win_key(vk) <==> modifier_of(vk) == Some(Modifier::Win),
        modifier_of(vk) is None <==> !(shift_key(vk) || ctrl_key(vk) || alt_key(vk) || win_key(vk)),
{
}

/// Two string slices are equal exactly when they hold the same characters:
/// what `str`'s `PartialEq::eq` computes.
pub assume_specification[ <str as PartialEq>::eq ](a: &str, b: &str) -> (r: bool)
    ensures
        r == (a@ == b@),
;

/// Editing, whitespace and lock keys.
pub open spec fn editing_key(name: Seq<char>) -> Option<u8> {
    if name == "backspace"@ || name == "bs"@ {
        Some(0x08)
    } else if name == "tab"@ {
        Some(0x09)
    } else if name == "clear"@ {
        Some(0x0C)
    } else if name == "return"@ || name == "enter"@ {
        Some(0x0D)
    } else if name == "pause"@ {
        Some(0x13)
    } else if name == "caps"@ {
        Some(0x14)
    } else if name == "esc"@ {
        Some(0x1B)
    } else if name == "space"@ {
        Some(0x20)
    } else if name == "insert"@ || name == "ins"@ {
        Some(0x2D)
    } else if name == "delete"@ || name == "del"@ {
        Some(0x2E)
    } else if name == "numlock"@ {
        Some(0x90)
    } else if name == "scroll"@ {
        Some(0x91)
    } else {
        None
    }
}

/// Modifier keys, generic and sided; `win` is the left Windows key.
pub open spec fn modifier_key(name: Seq<char>) -> Option<u8> {
    if name == "shift"@ {
        Some(VK_SHIFT)
    } else if name == "ctrl"@ {
        Some(VK_CONTROL)
    } else if name == "alt"@ {
        Some(VK_MENU)
    } else if name == "win"@ || name == "lwin"@ {
        Some(VK_LWIN)
    } else if name == "rwin"@ {
        Some(VK_RWIN)
    } else if name == "lshift"@ {
        Some(VK_LSHIFT)
    } else if name == "rshift"@ {
        Some(VK_RSHIFT)
    } else if name == "lctrl"@ {
        Some(VK_LCONTROL)
    } else if name == "rctrl"@ {
        Some(VK_RCONTROL)
    } else if name == "lalt"@ {
        Some(VK_LMENU)
    } else if name == "ralt"@ {
        Some(VK_RMENU)
    } else {
        None
    }
}

/// Input-method keys.
pub open spec fn ime_key(name: Seq<char>) -> Option<u8> {
    if name == "kana"@ || name == "hangul"@ {
        Some(0x15)
    } else if name == "ime_on"@ {
        Some(0x16)
    } else if name == "junja"@ {
        Some(0x17)
    } else if name == "final"@ {
        Some(0x18)
    } else if name == "hanja"@ || name == "kanji"@ {
        Some(0x19)
    } else if name == "ime_off"@ {
        Some(0x1A)
    } else if name == "convert"@ {
        Some(0x1C)
    } else if name == "nonconvert"@ {
        Some(0x1D)
    } else if name == "accept"@ {
        Some(0x1E)
    } else if name == "modechange"@ {
        Some(0x1F)
    } else {
        None
    }
}

/// Cursor movement and system keys.
pub open spec fn navigation_key(name: Seq<char>) -> Option<u8> {
    if name == "pageup"@ {
        Some(0x21)
    } else if name == "pagedown"@ {
        Some(0x22)
    } else if name == "end"@ {
        Some(0x23)
    } else if name == "home"@ {
        Some(0x24)
    } else if name == "left"@ {
        Some(0x25)
    } else if name == "up"@ {
        Some(0x26)
    } else if name == "right"@ {
        Some(0x27)
    } else if name == "down"@ {
        Some(0x28)
    } else if name == "select"@ {
        Some(0x29)
    } else if name == "print"@ {
        Some(0x2A)
    } else if name == "execute"@ {
        Some(0x2B)
    } else if name == "ps"@ || name == "printscreen"@ {
        Some(0x2C)
    } else if name == "help"@ {
        Some(0x2F)
    } else if name == "apps"@ {
        Some(0x5D)
    } else if name == "sleep"@ {
        Some(0x5F)
    } else {
        None
    }
}

/// Numeric keypad keys.
pub open spec fn numpad_key(name: Seq<char>) -> Option<u8> {
    if name == "numpad0"@ {
        Some(0x60)
    } else if name == "numpad1"@ {
        Some(0x61)
    } else if name == "numpad2"@ {
        Some(0x62)
    } else if name == "numpad3"@ {
        Some(0x63)
    } else if name == "numpad4"@ {
        Some(0x64)
    } else if name == "numpad5"@ {
        Some(0x65)
    } else if name == "numpad6"@ {
        Some(0x66)
    } else if name == "numpad7"@ {
        Some(0x67)
    } else if name == "numpad8"@ {
        Some(0x68)
    } else if name == "numpad9"@ {
        Some(0x69)
    } else if name == "multiply"@ {
        Some(0x6A)
    } else if name == "add"@ {
        Some(0x6B)
    } else if name == "separator"@ {
        Some(0x6C)
    } else if name == "subtract"@ {
        Some(0x6D)
    } else if name == "decimal"@ {
        Some(0x6E)
    } else if name == "divide"@ {
        Some(0x6F)
    } else {
        None
    }
}

/// Function keys `f1` to `f24`.
pub open spec fn function_key(name: Seq<char>) -> Option<u8> {
    if name == "f1"@ {
        Some(0x70)
    } else if name == "f2"@ {
        Some(0x71)
    } else if name == "f3"@ {
        Some(0x72)
    } else if name == "f4"@ {
        Some(0x73)
    } else if name == "f5"@ {
        Some(0x74)
    } else if name == "f6"@ {
        Some(0x75)
    } else if name == "f7"@ {
        Some(0x76)
    } else if name == "f8"@ {
        Some(0x77)
    } else if name == "f9"@ {
        Some(0x78)
    } else if name == "f10"@ {
        Some(0x79)
    } else if name == "f11"@ {
        Some(0x7A)
    } else if name == "f12"@ {
        Some(0x7B)
    } else if name == "f13"@ {
        Some(0x7C)
    } else if name == "f14"@ {
        Some(0x7D)
    } else if name == "f15"@ {
        Some(0x7E)
    } else if name == "f16"@ {
        Some(0x7F)
    } else if name == "f17"@ {
        Some(0x80)
    } else if name == "f18"@ {
        Some(0x81)
    } else if name == "f19"@ {
        Some(0x82)
    } else if name == "f20"@ {
        Some(0x83)
    } else if name == "f21"@ {
        Some(0x84)
    } else if name == "f22"@ {
        Some(0x85)
    } else if name == "f23"@ {
        Some(0x86)
    } else if name == "f24"@ {
        Some(0x87)
    } else {
        None
    }
}

/// Browser, volume, media and launcher keys.
pub open spec fn media_key(name: Seq<char>) -> Option<u8> {
    if name == "browser_back"@ {
        Some(0xA6)
    } else if name == "browser_forward"@ {
        Some(0xA7)
    } else if name == "browser_refresh"@ {
        Some(0xA8)
    } else if name == "browser_stop"@ {
        Some(0xA9)
    } else if name == "browser_search"@ {
        Some(0xAA)
    } else if name == "browser_favorites"@ {
        Some(0xAB)
    } else if name == "browser_home"@ {
        Some(0xAC)
    } else if name == "volume_mute"@ {
        Some(0xAD)
    } else if name == "volume_down"@ {
        Some(0xAE)
    } else if name == "volume_up"@ {
        Some(0xAF)
    } else if name == "media_next_track"@ {
        Some(0xB0)
    } else if name == "media_prev_track"@ {
        Some(0xB1)
    } else if name == "media_stop"@ {
        Some(0xB2)
    } else if name == "media_play_pause"@ {
        Some(0xB3)
    } else if name == "launch_mail"@ {
        Some(0xB4)
    } else if name == "launch_media_select"@ {
        Some(0xB5)
    } else if name == "launch_app1"@ {
        Some(0xB6)
    } else if name == "launch_app2"@ {
        Some(0xB7)
    } else {
        None
    }
}

/// Keys kept from terminal keyboards.
pub open spec fn legacy_key(name: Seq<char>) -> Option<u8> {
    if name == "attn"@ {
        Some(0xF6)
    } else if name == "crsel"@ {
        Some(0xF7)
    } else if name == "exsel"@ {
        Some(0xF8)
    } else if name == "ereof"@ {
        Some(0xF9)
    } else if name == "play"@ {
        Some(0xFA)
    } else if name == "zoom"@ {
        Some(0xFB)
    } else if name == "pa1"@ {
        Some(0xFD)
    } else if name == "oem_clear"@ {
        Some(0xFE)
    } else {
        None
    }
}

fn find_editing_key(name: &str) -> (r: Option<u8>)
    ensures
        r == editing_key(name@),
{
    if name.eq("backspace") || name.eq("bs") {
        Some(0x08)
    } else if name.eq("tab") {
        Some(0x09)
    } else if name.eq("clear") {
        Some(0x0C)
    } else if name.eq("return") || name.eq("enter") {
        Some(0x0D)
    } else if name.eq("pause") {
        Some(0x13)
    } else if name.eq("caps") {
        Some(0x14)
    } else if name.eq("esc") {
        Some(0x1B)
    } else if name.eq("space") {
        Some(0x20)
    } else if name.eq("insert") || name.eq("ins") {
        Some(0x2D)
    } else if name.eq("delete") || name.eq("del") {
        Some(0x2E)
    } else if name.eq("numlock") {
        Some(0x90)
    } else if name.eq("scroll") {
        Some(0x91)
    } else {
        None
    }
}

fn find_modifier_key(name: &str) -> (r: Option<u8>)
    ensures
        r == modifier_key(name@),
{
    if name.eq("shift") {
        Some(VK_SHIFT)
    } else if name.eq("ctrl") {
        Some(VK_CONTROL)
    } else if name.eq("alt") {
        Some(VK_MENU)
    } else if name.eq("win") || name.eq("lwin") {
        Some(VK_LWIN)
    } else if name.eq("rwin") {
        Some(VK_RWIN)
    } else if name.eq("lshift") {
        Some(VK_LSHIFT)
    } else if name.eq("rshift") {
        Some(VK_RSHIFT)
    } else if name.eq("lctrl") {
        Some(VK_LCONTROL)
    } else if name.eq("rctrl") {
        Some(VK_RCONTROL)
    } else if name.eq("lalt") {
        Some(VK_LMENU)
    } else if name.eq("ralt") {
        Some(VK_RMENU)
    } else {
        None
    }
}

fn find_ime_key(name: &str) -> (r: Option<u8>)
    ensures
        r == ime_key(name@),
{
    if name.eq("kana") || name.eq("hangul") {
        Some(0x15)
    } else if name.eq("ime_on") {
        Some(0x16)
    } else if name.eq("junja") {
        Some(0x17)
    } else if name.eq("final") {
        Some(0x18)
    } else if name.eq("hanja") || name.eq("kanji") {
        Some(0x19)
    } else if name.eq("ime_off") {
        Some(0x1A)
    } else if name.eq("convert") {
        Some(0x1C)
    } else if name.eq("nonconvert") {
        Some(0x1D)
    } else if name.eq("accept") {
        Some(0x1E)
    } else if name.eq("modechange") {
        Some(0x1F)
    } else {
        None
    }
}

fn find_navigation_key(name: &str) -> (r: Option<u8>)
    ensures
        r == navigation_key(name@),
{
    if name.eq("pageup") {
        Some(0x21)
    } else if name.eq("pagedown") {
        Some(0x22)
    } else if name.eq("end") {
        Some(0x23)
    } else if name.eq("home") {
        Some(0x24)
    } else if name.eq("left") {
        Some(0x25)
    } else if name.eq("up") {
        Some(0x26)
    } else if name.eq("right") {
        Some(0x27)
    } else if name.eq("down") {
        Some(0x28)
    } else if name.eq("select") {
        Some(0x29)
    } else if name.eq("print") {
        Some(0x2A)
    } else if name.eq("execute") {
        Some(0x2B)
    } else if name.eq("ps") || name.eq("printscreen") {
        Some(0x2C)
    } else if name.eq("help") {
        Some(0x2F)
    } else if name.eq("apps") {
        Some(0x5D)
    } else if name.eq("sleep") {
        Some(0x5F)
    } else {
        None
    }
}

fn find_numpad_key(name: &str) -> (r: Option<u8>)
    ensures
        r == numpad_key(name@),
{
    if name.eq("numpad0") {
        Some(0x60)
    } else if name.eq("numpad1") {
        Some(0x61)
    } else if name.eq("numpad2") {
        Some(0x62)
    } else if name.eq("numpad3") {
        Some(0x63)
    } else if name.eq("numpad4") {
        Some(0x64)
    } else if name.eq("numpad5") {
        Some(0x65)
    } else if name.eq("numpad6") {
        Some(0x66)
    } else if name.eq("numpad7") {
        Some(0x67)
    } else if name.eq("numpad8") {
        Some(0x68)
    } else if name.eq("numpad9") {
        Some(0x69)
    } else if name.eq("multiply") {
        Some(0x6A)
    } else if name.eq("add") {
        Some(0x6B)
    } else if name.eq("separator") {
        Some(0x6C)
    } else if name.eq("subtract") {
        Some(0x6D)
    } else if name.eq("decimal") {
        Some(0x6E)
    } else if name.eq("divide") {
        Some(0x6F)
    } else {
        None
    }
}

fn find_function_key(name: &str) -> (r: Option<u8>)
    ensures
        r == function_key(name@),
{
    if name.eq("f1") {
        Some(0x70)
    } else if name.eq("f2") {
        Some(0x71)
    } else if name.eq("f3") {
        Some(0x72)
    } else if name.eq("f4") {
        Some(0x73)
    } else if name.eq("f5") {
        Some(0x74)
    } else if name.eq("f6") {
        Some(0x75)
    } else if name.eq("f7") {
        Some(0x76)
    } else if name.eq("f8") {
        Some(0x77)
    } else if name.eq("f9") {
        Some(0x78)
    } else if name.eq("f10") {
        Some(0x79)
    } else if name.eq("f11") {
        Some(0x7A)
    } else if name.eq("f12") {
        Some(0x7B)
    } else if name.eq("f13") {
        Some(0x7C)
    } else if name.eq("f14") {
        Some(0x7D)
    } else if name.eq("f15") {
        Some(0x7E)
    } else if name.eq("f16") {
        Some(0x7F)
    } else if name.eq("f17") {
        Some(0x80)
    } else if name.eq("f18") {
        Some(0x81)
    } else if name.eq("f19") {
        Some(0x82)
    } else if name.eq("f20") {
        Some(0x83)
    } else if name.eq("f21") {
        Some(0x84)
    } else if name.eq("f22") {
        Some(0x85)
    } else if name.eq("f23") {
        Some(0x86)
    } else if name.eq("f24") {
        Some(0x87)
    } else {
        None
    }
}

fn find_media_key(name: &str) -> (r: Option<u8>)
    ensures
        r == media_key(name@),
{
    if name.eq("browser_back") {
        Some(0xA6)
    } else if name.eq("browser_forward") {
        Some(0xA7)
    } else if name.eq("browser_refresh") {
        Some(0xA8)
    } else if name.eq("browser_stop") {
        Some(0xA9)
    } else if name.eq("browser_search") {
        Some(0xAA)
    } else if name.eq("browser_favorites") {
        Some(0xAB)
    } else if name.eq("browser_home") {
        Some(0xAC)
    } else if name.eq("volume_mute") {
        Some(0xAD)
    } else if name.eq("volume_down") {
        Some(0xAE)
    } else if name.eq("volume_up") {
        Some(0xAF)
    } else if name.eq("media_next_track") {
        Some(0xB0)
    } else if name.eq("media_prev_track") {
        Some(0xB1)
    } else if name.eq("media_stop") {
        Some(0xB2)
    } else if name.eq("media_play_pause") {
        Some(0xB3)
    } else if name.eq("launch_mail") {
        Some(0xB4)
    } else if name.eq("launch_media_select") {
        Some(0xB5)
    } else if name.eq("launch_app1") {
        Some(0xB6)
    } else if name.eq("launch_app2") {
        Some(0xB7)
    } else {
        None
    }
}

fn find_legacy_key(name: &str) -> (r: Option<u8>)
    ensures
        r == legacy_key(name@),
{
    if name.eq("attn") {
        Some(0xF6)
    } else if name.eq("crsel") {
        Some(0xF7)
    } else if name.eq("exsel") {
        Some(0xF8)
    } else if name.eq("ereof") {
        Some(0xF9)
    } else if name.eq("play") {
        Some(0xFA)
    } else if name.eq("zoom") {
        Some(0xFB)
    } else if name.eq("pa1") {
        Some(0xFD)
    } else if name.eq("oem_clear") {
        Some(0xFE)
    } else {
        None
    }
}

/// The key that `name` stands for in the table of key names, if it is one.
/// Names are lower case and matched exactly.
pub open spec fn named_key(name: Seq<char>) -> Option<u8> {
    if editing_key(name) is Some {
        editing_key(name)
    } else if modifier_key(name) is Some {
        modifier_key(name)
    } else if ime_key(name) is Some {
        ime_key(name)
    } else if navigation_key(name) is Some {
        navigation_key(name)
    } else if numpad_key(name) is Some {
        numpad_key(name)
    } else if function_key(name) is Some {
        function_key(name)
    } else if media_key(name) is Some {
        media_key(name)
    } else {
        legacy_key(name)
    }
}

/// Looks `name` up in the table of key names.
pub fn key_name_to_vk(name: &str) -> (r: Option<u8>)
    ensures
        r == named_key(name@),
{
    let mut r = find_editing_key(name);
    if r.is_none() {
        r = find_modifier_key(name);
    }
    if r.is_none() {
        r = find_ime_key(name);
    }
    if r.is_none() {
        r = find_navigation_key(name);
    }
    if r.is_none() {
        r = find_numpad_key(name);
    }
    if r.is_none() {
        r = find_function_key(name);
    }
    if r.is_none() {
        r = find_media_key(name);
    }
    if r.is_none() {
        r = find_legacy_key(name);
    }
    r
}

/// The character that an escape name stands for: the four characters that
/// have a role in the syntax are typed as `<lt>`, `<gt>`, `<minus>`, `<plus>`.
pub open spec fn escaped_char(name: Seq<char>) -> Option<char> {
    if name == "lt"@ {
        Some('<')
    } else if name == "gt"@ {
        Some('>')
    } else if name == "minus"@ {
        Some('-')
    } else if name == "plus"@ {
        Some('+')
    } else {
        None
    }
}

/// Looks `name` up among the escape names.
pub fn escaped_key_char(name: &str) -> (r: Option<char>)
    ensures
        r == escaped_char(name@),
{
    if name.eq("lt") {
        Some('<')
    } else if name.eq("gt") {
        Some('>')
    } else if name.eq("minus") {
        Some('-')
    } else if name.eq("plus") {
        Some('+')
    } else {
        None
    }
}

/// No escape name is a key name, so that each of them reaches the escape
/// table: a key name differs from each escape name in its length or in
/// one of its characters.
pub proof fn lemma_escape_names()
    ensures
        named_key("lt"@) is None,
        named_key("gt"@) is None,
        named_key("minus"@) is None,
        named_key("plus"@) is None,
{
    reveal_strlit("lt");
    assert("lt"@.len() == 2);
    reveal_strlit("gt");
    assert("gt"@.len() == 2);
    reveal_strlit("minus");
    assert("minus"@.len() == 5);
    reveal_strlit("plus");
    assert("plus"@.len() == 4);
    assert("lt"@[0] == 'l');
    assert("gt"@[0] == 'g');
    assert("minus"@[0] == 'm');
    assert("plus"@[0] == 'p');
    assert("plus"@[2] == 'u');
    reveal_strlit("backspace");
    assert("backspace"@.len() == 9);
    reveal_strlit("bs");
    assert("bs"@.len() == 2);
    assert("bs"@[0] == 'b');
    reveal_strlit("tab");
    assert("tab"@.len() == 3);
    reveal_strlit("clear");
    assert("clear"@.len() == 5);
    assert("clear"@[0] == 'c');
    reveal_strlit("return");
    assert("return"@.len() == 6);
    reveal_strlit("enter");
    assert("enter"@.len() == 5);
    assert("enter"@[0] == 'e');
    reveal_strlit("pause");
    assert("pause"@.len() == 5);
    assert("pause"@[0] == 'p');
    reveal_strlit("caps");
    assert("caps"@.len() == 4);
    assert("caps"@[0] == 'c');
    reveal_strlit("esc");
    assert("esc"@.len() == 3);
    reveal_strlit("space");
    assert("space"@.len() == 5);
    assert("space"@[0] == 's');
    reveal_strlit("insert");
    assert("insert"@.len() == 6);
    reveal_strlit("ins");
    assert("ins"@.len() == 3);
    reveal_strlit("delete");
    assert("delete"@.len() == 6);
    reveal_strlit("del");
    assert("del"@.len() == 3);
    reveal_strlit("numlock");
    assert("numlock"@.len() == 7);
    reveal_strlit("scroll");
    assert("scroll"@.len() == 6);
    reveal_strlit("shift");
    assert("shift"@.len() == 5);
    assert("shift"@[0] == 's');
    reveal_strlit("ctrl");
    assert("ctrl"@.len() == 4);
    assert("ctrl"@[0] == 'c');
    reveal_strlit("alt");
    assert("alt"@.len() == 3);
    reveal_strlit("win");
    assert("win"@.len() == 3);
    reveal_strlit("lwin");
    assert("lwin"@.len() == 4);
    assert("lwin"@[0] == 'l');
    reveal_strlit("rwin");
    assert("rwin"@.len() == 4);
    assert("rwin"@[0] == 'r');
    reveal_strlit("lshift");
    assert("lshift"@.len() == 6);
    reveal_strlit("rshift");
    assert("rshift"@.len() == 6);
    reveal_strlit("lctrl");
    assert("lctrl"@.len() == 5);
    assert("lctrl"@[0] == 'l');
    reveal_strlit("rctrl");
    assert("rctrl"@.len() == 5);
    assert("rctrl"@[0] == 'r');
    reveal_strlit("lalt");
    assert("lalt"@.len() == 4);
    assert("lalt"@[0] == 'l');
    reveal_strlit("ralt");
    assert("ralt"@.len() == 4);
    assert("ralt"@[0] == 'r');
    reveal_strlit("kana");
    assert("kana"@.len() == 4);
    assert("kana"@[0] == 'k');
    reveal_strlit("hangul");
    assert("hangul"@.len() == 6);
    reveal_strlit("ime_on");
    assert("ime_on"@.len() == 6);
    reveal_strlit("junja");
    assert("junja"@.len() == 5);
    assert("junja"@[0] == 'j');
    reveal_strlit("final");
    assert("final"@.len() == 5);
    assert("final"@[0] == 'f');
    reveal_strlit("hanja");
    assert("hanja"@.len() == 5);
    assert("hanja"@[0] == 'h');
    reveal_strlit("kanji");
    assert("kanji"@.len() == 5);
    assert("kanji"@[0] == 'k');
    reveal_strlit("ime_off");
    assert("ime_off"@.len() == 7);
    reveal_strlit("convert");
    assert("convert"@.len() == 7);
    reveal_strlit("nonconvert");
    assert("nonconvert"@.len() == 10);
    reveal_strlit("accept");
    assert("accept"@.len() == 6);
    reveal_strlit("modechange");
    assert("modechange"@.len() == 10);
    reveal_strlit("pageup");
    assert("pageup"@.len() == 6);
    reveal_strlit("pagedown");
    assert("pagedown"@.len() == 8);
    reveal_strlit("end");
    assert("end"@.len() == 3);
    reveal_strlit("home");
    assert("home"@.len() == 4);
    assert("home"@[0] == 'h');
    reveal_strlit("left");
    assert("left"@.len() == 4);
    assert("left"@[0] == 'l');
    reveal_strlit("up");
    assert("up"@.len() == 2);
    assert("up"@[0] == 'u');
    reveal_strlit("right");
    assert("right"@.len() == 5);
    assert("right"@[0] == 'r');
    reveal_strlit("down");
    assert("down"@.len() == 4);
    assert("down"@[0] == 'd');
    reveal_strlit("select");
    assert("select"@.len() == 6);
    reveal_strlit("print");
    assert("print"@.len() == 5);
    assert("print"@[0] == 'p');
    reveal_strlit("execute");
    assert("execute"@.len() == 7);
    reveal_strlit("ps");
    assert("ps"@.len() == 2);
    assert("ps"@[0] == 'p');
    reveal_strlit("printscreen");
    assert("printscreen"@.len() == 11);
    reveal_strlit("help");
    assert("help"@.len() == 4);
    assert("help"@[0] == 'h');
    reveal_strlit("apps");
    assert("apps"@.len() == 4);
    assert("apps"@[0] == 'a');
    reveal_strlit("sleep");
    assert("sleep"@.len() == 5);
    assert("sleep"@[0] == 's');
    reveal_strlit("numpad0");
    assert("numpad0"@.len() == 7);
    reveal_strlit("numpad1");
    assert("numpad1"@.len() == 7);
    reveal_strlit("numpad2");
    assert("numpad2"@.len() == 7);
    reveal_strlit("numpad3");
    assert("numpad3"@.len() == 7);
    reveal_strlit("numpad4");
    assert("numpad4"@.len() == 7);
    reveal_strlit("numpad5");
    assert("numpad5"@.len() == 7);
    reveal_strlit("numpad6");
    assert("numpad6"@.len() == 7);
    reveal_strlit("numpad7");
    assert("numpad7"@.len() == 7);
    reveal_strlit("numpad8");
    assert("numpad8"@.len() == 7);
    reveal_strlit("numpad9");
    assert("numpad9"@.len() == 7);
    reveal_strlit("multiply");
    assert("multiply"@.len() == 8);
    reveal_strlit("add");
    assert("add"@.len() == 3);
    reveal_strlit("separator");
    assert("separator"@.len() == 9);
    reveal_strlit("subtract");
    assert("subtract"@.len() == 8);
    reveal_strlit("decimal");
    assert("decimal"@.len() == 7);
    reveal_strlit("divide");
    assert("divide"@.len() == 6);
    reveal_strlit("f1");
    assert("f1"@.len() == 2);
    assert("f1"@[0] == 'f');
    reveal_strlit("f2");
    assert("f2"@.len() == 2);
    assert("f2"@[0] == 'f');
    reveal_strlit("f3");
    assert("f3"@.len() == 2);
    assert("f3"@[0] == 'f');
    reveal_strlit("f4");
    assert("f4"@.len() == 2);
    assert("f4"@[0] == 'f');
    reveal_strlit("f5");
    assert("f5"@.len() == 2);
    assert("f5"@[0] == 'f');
    reveal_strlit("f6");
    assert("f6"@.len() == 2);
    assert("f6"@[0] == 'f');
    reveal_strlit("f7");
    assert("f7"@.len() == 2);
    assert("f7"@[0] == 'f');
    reveal_strlit("f8");
    assert("f8"@.len() == 2);
    assert("f8"@[0] == 'f');
    reveal_strlit("f9");
    assert("f9"@.len() == 2);
    assert("f9"@[0] == 'f');
    reveal_strlit("f10");
    assert("f10"@.len() == 3);
    reveal_strlit("f11");
    assert("f11"@.len() == 3);
    reveal_strlit("f12");
    assert("f12"@.len() == 3);
    reveal_strlit("f13");
    assert("f13"@.len() == 3);
    reveal_strlit("f14");
    assert("f14"@.len() == 3);
    reveal_strlit("f15");
    assert("f15"@.len() == 3);
    reveal_strlit("f16");
    assert("f16"@.len() == 3);
    reveal_strlit("f17");
    assert("f17"@.len() == 3);
    reveal_strlit("f18");
    assert("f18"@.len() == 3);
    reveal_strlit("f19");
    assert("f19"@.len() == 3);
    reveal_strlit("f20");
    assert("f20"@.len() == 3);
    reveal_strlit("f21");
    assert("f21"@.len() == 3);
    reveal_strlit("f22");
    assert("f22"@.len() == 3);
    reveal_strlit("f23");
    assert("f23"@.len() == 3);
    reveal_strlit("f24");
    assert("f24"@.len() == 3);
    reveal_strlit("browser_back");
    assert("browser_back"@.len() == 12);
    reveal_strlit("browser_forward");
    assert("browser_forward"@.len() == 15);
    reveal_strlit("browser_refresh");
    assert("browser_refresh"@.len() == 15);
    reveal_strlit("browser_stop");
    assert("browser_stop"@.len() == 12);
    reveal_strlit("browser_search");
    assert("browser_search"@.len() == 14);
    reveal_strlit("browser_favorites");
    assert("browser_favorites"@.len() == 17);
    reveal_strlit("browser_home");
    assert("browser_home"@.len() == 12);
    reveal_strlit("volume_mute");
    assert("volume_mute"@.len() == 11);
    reveal_strlit("volume_down");
    assert("volume_down"@.len() == 11);
    reveal_strlit("volume_up");
    assert("volume_up"@.len() == 9);
    reveal_strlit("media_next_track");
    assert("media_next_track"@.len() == 16);
    reveal_strlit("media_prev_track");
    assert("media_prev_track"@.len() == 16);
    reveal_strlit("media_stop");
    assert("media_stop"@.len() == 10);
    reveal_strlit("media_play_pause");
    assert("media_play_pause"@.len() == 16);
    reveal_strlit("launch_mail");
    assert("launch_mail"@.len() == 11);
    reveal_strlit("launch_media_select");
    assert("launch_media_select"@.len() == 19);
    reveal_strlit("launch_app1");
    assert("launch_app1"@.len() == 11);
    reveal_strlit("launch_app2");
    assert("launch_app2"@.len() == 11);
    reveal_strlit("attn");
    assert("attn"@.len() == 4);
    assert("attn"@[0] == 'a');
    reveal_strlit("crsel");
    assert("crsel"@.len() == 5);
    assert("crsel"@[0] == 'c');
    reveal_strlit("exsel");
    assert("exsel"@.len() == 5);
    assert("exsel"@[0] == 'e');
    reveal_strlit("ereof");
    assert("ereof"@.len() == 5);
    assert("ereof"@[0] == 'e');
    reveal_strlit("play");
    assert("play"@.len() == 4);
    assert("play"@[2] == 'a');
    reveal_strlit("zoom");
    assert("zoom"@.len() == 4);
    assert("zoom"@[0] == 'z');
    reveal_strlit("pa1");
    assert("pa1"@.len() == 3);
    reveal_strlit("oem_clear");
    assert("oem_clear"@.len() == 9);
}

} // verus!
