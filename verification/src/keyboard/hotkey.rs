//! Hotkey descriptors: the modifiers and the one other key of a
//! combination, as a global hotkey is registered with them.

use crate::keyboard::compiler::parse_str;
use crate::keyboard::error::{KeyError, KeyFault};
use crate::keyboard::events::KeyInput;
use crate::keyboard::grammar::compile;
use crate::keyboard::keys::{classify, modifier_of, Modifier};
use crate::keyboard::layout::KeyLayout;
use vstd::prelude::*;

verus! {

/// The flag of the alt key in a modifier mask.
pub const MOD_ALT: u32 = 0x0001;

/// The flag of the control key in a modifier mask.
pub const MOD_CONTROL: u32 = 0x0002;

/// The flag of the shift key in a modifier mask.
pub const MOD_SHIFT: u32 = 0x0004;

/// The flag of the Windows key in a modifier mask.
pub const MOD_WIN: u32 = 0x0008;

/// A hotkey: the modifier classes to hold, and the one key that is no
/// modifier.
#[derive(Clone, Copy, Debug, PartialEq, Eq)]
pub struct HotkeyDescriptor {
    pub shift: bool,
    pub ctrl: bool,
    pub alt: bool,
    pub win: bool,
    pub vk: u8,
}

impl HotkeyDescriptor {
    /// The main key is no modifier.
    pub open spec fn wf(self) -> bool {
        modifier_of(self.vk) is None
    }

    /// Whether the hotkey holds a modifier of the class `class`.
    pub open spec fn holds(self, class: Modifier) -> bool {
        match class {
            Modifier::Shift => self.shift,
            Modifier::Ctrl => self.ctrl,
            Modifier::Alt => self.alt,
            Modifier::Win => self.win,
        }
    }

    /// The modifier mask as a number: the sum of the flags of the classes
    /// held, which share no bit.
    pub open spec fn mask(self) -> int {
        (if self.alt {
            MOD_ALT as int
        } else {
            0
        }) + (if self.ctrl {
            MOD_CONTROL as int
        } else {
            0
        }) + (if self.shift {
            MOD_SHIFT as int
        } else {
            0
        }) + (if self.win {
            MOD_WIN as int
        } else {
            0
        })
    }

    /// The modifier mask: the flags of the classes held, or-ed together.
    pub fn modifier_mask(&self) -> (mask: u32)
        ensures
            mask == self.mask(),
    {
        let mut mask: u32 = 0;
        if self.alt {
            mask = mask | MOD_ALT;
            assert(0u32 | 1 == 1) by (bit_vector);
        }
        if self.ctrl {
            let ghost low = mask;
            mask = mask | MOD_CONTROL;
            assert(low < 2 ==> low | 2 == low + 2) by (bit_vector);
        }
        if self.shift {
            let ghost low = mask;
            mask = mask | MOD_SHIFT;
            assert(low < 4 ==> low | 4 == low + 4) by (bit_vector);
        }
        if self.win {
            let ghost low = mask;
            mask = mask | MOD_WIN;
            assert(low < 8 ==> low | 8 == low + 8) by (bit_vector);
        }
        mask
    }
}

/// The keys that `events` press before their first release.
pub open spec fn leading_presses(events: Seq<KeyInput>) -> Seq<u8>
    decreases events.len(),
{
    if events.len() == 0 {
        Seq::empty()
    } else {
        match events[0] {
            KeyInput::KeyUp(_) => Seq::empty(),
            KeyInput::KeyDown(vk) => seq![vk] + leading_presses(events.drop_first()),
        }
    }
}

/// The keys of a hotkey as far as they have been read.
pub struct Chord {
    pub shift: bool,
    pub ctrl: bool,
    pub alt: bool,
    pub win: bool,
    pub vk: Option<u8>,
}

impl Chord {
    /// Whether the chord holds a modifier of the class `class`.
    pub open spec fn holds(self, class: Modifier) -> bool {
        match class {
            Modifier::Shift => self.shift,
            Modifier::Ctrl => self.ctrl,
            Modifier::Alt => self.alt,
            Modifier::Win => self.win,
        }
    }

    /// The chord before its first key.
    pub open spec fn empty() -> Chord {
        Chord { shift: false, ctrl: false, alt: false, win: false, vk: None }
    }

    /// The chord with the key `vk` added: a modifier class may come once,
    /// and so may a key that is no modifier.
    pub open spec fn add(self, vk: u8) -> Result<Chord, KeyFault> {
        match modifier_of(vk) {
            Some(Modifier::Shift) => if self.shift {
                Err(KeyFault::DuplicateModifier)
            } else {
                Ok(Chord { shift: true, ..self })
            },
            Some(Modifier::Ctrl) => if self.ctrl {
                Err(KeyFault::DuplicateModifier)
            } else {
                Ok(Chord { ctrl: true, ..self })
            },
            Some(Modifier::Alt) => if self.alt {
                Err(KeyFault::DuplicateModifier)
            } else {
                Ok(Chord { alt: true, ..self })
            },
            Some(Modifier::Win) => if self.win {
                Err(KeyFault::DuplicateModifier)
            } else {
                Ok(Chord { win: true, ..self })
            },
            None => if self.vk is Some {
                Err(KeyFault::MultipleMainKeys)
            } else {
                Ok(Chord { vk: Some(vk), ..self })
            },
        }
    }

    /// The chord with the keys added that `events` press before their
    /// first release; what follows that release is not read.
    pub open spec fn add_presses(self, events: Seq<KeyInput>) -> Result<Chord, KeyFault>
        decreases events.len(),
    {
        if events.len() == 0 {
            Ok(self)
        } else {
            match events[0] {
                KeyInput::KeyUp(_) => Ok(self),
                KeyInput::KeyDown(vk) => match self.add(vk) {
                    Ok(chord) => chord.add_presses(events.drop_first()),
                    Err(fault) => Err(fault),
                },
            }
        }
    }

    /// The hotkey of a chord that has its main key.
    pub open spec fn finish(self) -> Result<HotkeyDescriptor, KeyFault> {
        match self.vk {
            Some(vk) => Ok(
                HotkeyDescriptor {
                    shift: self.shift,
                    ctrl: self.ctrl,
                    alt: self.alt,
                    win: self.win,
                    vk,
                },
            ),
            None => Err(KeyFault::NoMainKey),
        }
    }
}

/// The hotkey that a sequence of events describes by the keys that it
/// presses before its first release.
pub open spec fn hotkey_of(events: Seq<KeyInput>) -> Result<HotkeyDescriptor, KeyFault> {
    match Chord::empty().add_presses(events) {
        Ok(chord) => chord.finish(),
        Err(fault) => Err(fault),
    }
}

/// The hotkey that the key string `text` describes.
pub open spec fn hotkey(text: Seq<char>, layout: Map<char, (u8, bool)>) -> Result<
    HotkeyDescriptor,
    KeyFault,
> {
    match compile(text, layout) {
        Ok(events) => hotkey_of(events),
        Err(fault) => Err(fault),
    }
}

/// Reads a hotkey off the keys that `events` press before their first
/// release.
pub fn hotkey_from_events(events: &[KeyInput]) -> (r: Result<HotkeyDescriptor, KeyError>)
    ensures
        match hotkey_of(events@) {
            Ok(descriptor) => r == Ok::<HotkeyDescriptor, KeyError>(descriptor),
            Err(fault) => r matches Err(e) && e@ == fault,
        },
        r matches Ok(descriptor) ==> descriptor.wf(),
{
    let mut shift = false;
    let mut ctrl = false;
    let mut alt = false;
    let mut win = false;
    let mut main: Option<u8> = None;
    let mut i: usize = 0;
    assert(events@.skip(0) =~= events@);
    while i < events.len()
        invariant
            i <= events.len(),
            main matches Some(vk) ==> modifier_of(vk) is None,
            Chord::empty().add_presses(events@) == (Chord { shift, ctrl, alt, win, vk: main })
                .add_presses(events@.skip(i as int)),
        ensures
            main matches Some(vk) ==> modifier_of(vk) is None,
            Chord::empty().add_presses(events@) == Ok::<Chord, KeyFault>(
                Chord { shift, ctrl, alt, win, vk: main },
            ),
        decreases events.len() - i,
    {
        proof {
            assert(events@.skip(i as int).drop_first() =~= events@.skip(i + 1));
        }
        match events[i] {
            KeyInput::KeyUp(_) => {
                break;
            },
            KeyInput::KeyDown(vk) => match classify(vk) {
                Some(Modifier::Shift) => {
                    if shift {
                        return Err(KeyError::DuplicateModifier);
                    }
                    shift = true;
                },
                Some(Modifier::Ctrl) => {
                    if ctrl {
                        return Err(KeyError::DuplicateModifier);
                    }
                    ctrl = true;
                },
                Some(Modifier::Alt) => {
                    if alt {
                        return Err(KeyError::DuplicateModifier);
                    }
                    alt = true;
                },
                Some(Modifier::Win) => {
                    if win {
                        return Err(KeyError::DuplicateModifier);
                    }
                    win = true;
                },
                None => {
                    if main.is_some() {
                        return Err(KeyError::MultipleMainKeys);
                    }
                    main = Some(vk);
                },
            },
        }
        i = i + 1;
    }
    match main {
        Some(vk) => Ok(HotkeyDescriptor { shift, ctrl, alt, win, vk }),
        None => Err(KeyError::NoMainKey),
    }
}

/// Compiles the key string `s`, which is to hold one combination such as
/// `<ctrl+alt+k>`, into its hotkey.
pub fn compile_hotkey(s: &str, layout: &KeyLayout) -> (r: Result<HotkeyDescriptor, KeyError>)
    ensures
        match hotkey(s@, layout@) {
            Ok(descriptor) => r == Ok::<HotkeyDescriptor, KeyError>(descriptor),
            Err(fault) => r matches Err(e) && e@ == fault,
        },
        r matches Ok(descriptor) ==> descriptor.wf(),
{
    let events = parse_str(s, layout)?;
    hotkey_from_events(events.as_slice())
}

} // verus!
