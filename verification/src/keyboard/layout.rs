//! The keyboard layout: which key types a character, and whether shift has
//! to be held for it.

use std::collections::HashMap;
use vstd::prelude::*;

verus! {

/// The code point of `c`, by which a layout files the character.
pub open spec fn code_point(c: char) -> u32 {
    c as u32
}

/// Different characters have different code points.
pub proof fn lemma_code_point_injective(c: char, d: char)
    requires
        code_point(c) == code_point(d),
    ensures
        c == d,
{
}

/// What a platform scan of one character tells: `None` where the scan
/// reports with -1 that no key types the character; else the key
/// identifier from the low byte, and whether bit 8, the shift flag, is set.
pub open spec fn scanned_key(scan: i16) -> Option<(u8, bool)> {
    if scan == -1 {
        None
    } else {
        Some(((scan & 0xFF) as u8, (scan & 0x0100) != 0))
    }
}

/// Decodes the result of a platform scan of one character.
pub fn decode_scan(scan: i16) -> (r: Option<(u8, bool)>)
    ensures
        r == scanned_key(scan),
{
    if scan == -1 {
        return None;
    }
    assert(0 <= scan & 0xFF < 256) by (bit_vector);
    let vk: u8 = (scan & 0xFF) as u8;
    let shift: bool = (scan & 0x0100) != 0;
    Some((vk, shift))
}

/// A keyboard layout, as far as it has been recorded: for each character
/// that some key types, that key and whether shift is held with it.
pub struct KeyLayout {
    keys: HashMap<u32, (u8, bool)>,
}

impl View for KeyLayout {
    type V = Map<char, (u8, bool)>;

    closed spec fn view(&self) -> Map<char, (u8, bool)> {
        Map::new(
            |c: char| self.keys@.contains_key(code_point(c)),
            |c: char| self.keys@[code_point(c)],
        )
    }
}

impl KeyLayout {
    /// A layout in which no character can be typed yet.
    pub fn new() -> (layout: KeyLayout)
        ensures
            layout@ == Map::<char, (u8, bool)>::empty(),
    {
        let layout = KeyLayout { keys: HashMap::new() };
        assert(layout@ =~= Map::<char, (u8, bool)>::empty());
        layout
    }

    /// Records that the key `vk` types `c`, with shift held if `shift`.
    pub fn insert(&mut self, c: char, vk: u8, shift: bool)
        ensures
            final(self)@ == old(self)@.insert(c, (vk, shift)),
    {
        self.keys.insert(c as u32, (vk, shift));
        proof {
            assert forall|d: char| d != c implies #[trigger] code_point(d) != code_point(c) by {
                if code_point(d) == code_point(c) {
                    lemma_code_point_injective(c, d);
                }
            }
            assert(self@ =~= old(self)@.insert(c, (vk, shift)));
        }
    }

    /// Records that no key types `c`.
    pub fn remove(&mut self, c: char)
        ensures
            final(self)@ == old(self)@.remove(c),
    {
        self.keys.remove(&(c as u32));
        proof {
            assert forall|d: char| d != c implies #[trigger] code_point(d) != code_point(c) by {
                if code_point(d) == code_point(c) {
                    lemma_code_point_injective(c, d);
                }
            }
            assert(self@ =~= old(self)@.remove(c));
        }
    }

    /// Records what a platform scan of `c` returned.
    pub fn record_scan(&mut self, c: char, scan: i16)
        ensures
            final(self)@ == match scanned_key(scan) {
                Some(key) => old(self)@.insert(c, key),
                None => old(self)@.remove(c),
            },
    {
        match decode_scan(scan) {
            Some((vk, shift)) => self.insert(c, vk, shift),
            None => self.remove(c),
        }
    }

    /// The key that types `c` and whether shift is held with it, if the
    /// layout has one.
    pub fn resolve(&self, c: char) -> (r: Option<(u8, bool)>)
        ensures
            r == (if self@.contains_key(c) {
                Some(self@[c])
            } else {
                None
            }),
    {
        match self.keys.get(&(c as u32)) {
            Some(key) => Some(*key),
            None => None,
        }
    }
}

} // verus!
