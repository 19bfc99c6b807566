//! The key-sequence language and what is compiled from it.
//!
//! A key string holds literal text and bracket groups: `abc` types three
//! keys, `<enter>` types a named key, `<ctrl+c>` is a combination,
//! `<ctrl+>` presses and `<ctrl->` releases a key, and `<lt>`, `<gt>`,
//! `<minus>`, `<plus>` type the four characters of the syntax. It is
//! compiled against a [`KeyLayout`], which tells for each character the
//! key that types it; [`chars_to_scan`] tells which characters a layout
//! has to know for a given string. What a string means is defined in
//! [`grammar`], and [`laws`] holds what follows from it.

pub mod compiler;
pub mod error;
pub mod events;
pub mod grammar;
pub mod hotkey;
pub mod keys;
pub mod laws;
pub mod layout;
pub mod wait;

pub use crate::keyboard::compiler::{
    chars_to_scan, parse_char, parse_part, parse_str, push_group,
};
pub use crate::keyboard::error::{KeyError, KeyFault};
pub use crate::keyboard::events::{
    mod_keys_up, push_key_down, push_key_down_and_up, push_key_up, KeyInput, KeyState,
};
pub use crate::keyboard::hotkey::{compile_hotkey, hotkey_from_events, HotkeyDescriptor};
pub use crate::keyboard::keys::{is_alt_key, is_ctrl_key, is_shift_key, is_win_key};
pub use crate::keyboard::layout::{decode_scan, KeyLayout};
pub use crate::keyboard::wait::{watch_set, KeyWait, WaitAction};

use crate::keyboard::grammar::compile;
use crate::keyboard::wait::event_keys;
use std::collections::HashSet;
use vstd::prelude::*;

verus! {

/// The flag of an injection record that releases its key.
pub const KEYEVENTF_KEYUP: u32 = 0x0002;

/// One key event as it is handed to the platform's input queue: the key
/// identifier, widened, and the flags.
#[derive(Clone, Copy, Debug, PartialEq, Eq)]
pub struct KeyRecord {
    pub vk: u16,
    pub flags: u32,
}

/// The injection record of one event: a press has no flag, a release has
/// the key-up flag.
pub open spec fn key_record(event: KeyInput) -> KeyRecord {
    match event {
        KeyInput::KeyDown(vk) => KeyRecord { vk: vk as u16, flags: 0 },
        KeyInput::KeyUp(vk) => KeyRecord { vk: vk as u16, flags: KEYEVENTF_KEYUP },
    }
}

/// The injection records of `key_inputs`, one for each event, in order.
pub fn input_keys(key_inputs: &[KeyInput]) -> (records: Vec<KeyRecord>)
    ensures
        records@ == key_inputs@.map_values(|event: KeyInput| key_record(event)),
{
    let mut records: Vec<KeyRecord> = Vec::new();
    for i in 0..key_inputs.len()
        invariant
            records@ == key_inputs@.take(i as int).map_values(|event: KeyInput| key_record(event)),
    {
        let record = match key_inputs[i] {
            KeyInput::KeyDown(vk) => KeyRecord { vk: vk as u16, flags: 0 },
            KeyInput::KeyUp(vk) => KeyRecord { vk: vk as u16, flags: KEYEVENTF_KEYUP },
        };
        records.push(record);
        assert(records@ =~= key_inputs@.take(i + 1).map_values(
            |event: KeyInput| key_record(event),
        ));
    }
    assert(key_inputs@.take(key_inputs@.len() as int) =~= key_inputs@);
    records
}

/// Compiles the key string `s` on `layout` into the records to inject.
pub fn input(s: &str, layout: &KeyLayout) -> (r: Result<Vec<KeyRecord>, KeyError>)
    ensures
        match compile(s@, layout@) {
            Ok(events) => r matches Ok(records) && records@ == events.map_values(
                |event: KeyInput| key_record(event),
            ),
            Err(fault) => r matches Err(e) && e@ == fault,
        },
{
    let events = parse_str(s, layout)?;
    Ok(input_keys(events.as_slice()))
}

/// Compiles the key string `s` on `layout` into the set of keys whose
/// release is to be waited for.
pub fn wait_keys_up(s: &str, layout: &KeyLayout) -> (r: Result<HashSet<u8>, KeyError>)
    ensures
        match compile(s@, layout@) {
            Ok(events) => r matches Ok(keys) && keys@ == event_keys(events),
            Err(fault) => r matches Err(e) && e@ == fault,
        },
{
    let events = parse_str(s, layout)?;
    Ok(watch_set(events.as_slice()))
}

} // verus!
