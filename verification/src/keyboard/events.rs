//! Key events, the record of held modifiers, and the three ways in which
//! events are appended to a sequence.

use crate::keyboard::error::KeyError;
use crate::keyboard::keys::{
    is_alt_key, is_ctrl_key, is_shift_key, is_win_key, modifier_of, Modifier, VK_SHIFT,
};
use vstd::prelude::*;

verus! {

/// One transition of one key.
#[derive(Clone, Copy, Debug, PartialEq, Eq, Structural)]
pub enum KeyInput {
    KeyDown(u8),
    KeyUp(u8),
}

impl KeyInput {
    /// The key that the event presses or releases.
    pub open spec fn key(self) -> u8 {
        match self {
            KeyInput::KeyDown(vk) => vk,
            KeyInput::KeyUp(vk) => vk,
        }
    }
}

/// Which key of each modifier class the events so far have left held, by
/// the compiler's own bookkeeping.
#[derive(Clone, Copy, Debug, PartialEq, Eq)]
pub struct KeyState {
    pub shift: Option<u8>,
    pub ctrl: Option<u8>,
    pub alt: Option<u8>,
    pub win: Option<u8>,
}

impl KeyState {
    /// The state in which no modifier is held.
    pub open spec fn idle() -> KeyState {
        KeyState { shift: None, ctrl: None, alt: None, win: None }
    }

    /// Each slot that holds a key holds a modifier of its own class.
    pub open spec fn wf(self) -> bool {
        &&& self.shift matches Some(vk) ==> modifier_of(vk) == Some(Modifier::Shift)
        &&& self.ctrl matches Some(vk) ==> modifier_of(vk) == Some(Modifier::Ctrl)
        &&& self.alt matches Some(vk) ==> modifier_of(vk) == Some(Modifier::Alt)
        &&& self.win matches Some(vk) ==> modifier_of(vk) == Some(Modifier::Win)
    }

    /// The key that is held of the class `class`.
    pub open spec fn slot(self, class: Modifier) -> Option<u8> {
        match class {
            Modifier::Shift => self.shift,
            Modifier::Ctrl => self.ctrl,
            Modifier::Alt => self.alt,
            Modifier::Win => self.win,
        }
    }

    /// The state after `vk` went down: a modifier is held for its class.
    pub open spec fn press(self, vk: u8) -> KeyState {
        match modifier_of(vk) {
            Some(Modifier::Shift) => KeyState { shift: Some(vk), ..self },
            Some(Modifier::Ctrl) => KeyState { ctrl: Some(vk), ..self },
            Some(Modifier::Alt) => KeyState { alt: Some(vk), ..self },
            Some(Modifier::Win) => KeyState { win: Some(vk), ..self },
            None => self,
        }
    }

    /// The state after `vk` went up: its class, if it has one, holds no key.
    pub open spec fn release(self, vk: u8) -> KeyState {
        match modifier_of(vk) {
            Some(Modifier::Shift) => KeyState { shift: None, ..self },
            Some(Modifier::Ctrl) => KeyState { ctrl: None, ..self },
            Some(Modifier::Alt) => KeyState { alt: None, ..self },
            Some(Modifier::Win) => KeyState { win: None, ..self },
            None => self,
        }
    }

    /// The state after one event.
    pub open spec fn track(self, event: KeyInput) -> KeyState {
        match event {
            KeyInput::KeyDown(vk) => self.press(vk),
            KeyInput::KeyUp(vk) => self.release(vk),
        }
    }

    /// The state after `events`, in their order.
    pub open spec fn track_all(self, events: Seq<KeyInput>) -> KeyState
        decreases events.len(),
    {
        if events.len() == 0 {
            self
        } else {
            self.track_all(events.drop_last()).track(events.last())
        }
    }

    /// The state after a literal key that needs shift held if `shift`:
    /// only the shift slot can change.
    pub open spec fn after_literal(self, shift: bool) -> KeyState {
        if shift && self.shift is None {
            KeyState { shift: Some(VK_SHIFT), ..self }
        } else if !shift && self.shift is Some {
            KeyState { shift: None, ..self }
        } else {
            self
        }
    }

    /// The releases that let go of the held Windows, shift and control
    /// keys, in that order.
    pub open spec fn releases(self) -> Seq<KeyInput> {
        let win = match self.win {
            Some(vk) => seq![KeyInput::KeyUp(vk)],
            None => Seq::empty(),
        };
        let shift = match self.shift {
            Some(vk) => seq![KeyInput::KeyUp(vk)],
            None => Seq::empty(),
        };
        let ctrl = match self.ctrl {
            Some(vk) => seq![KeyInput::KeyUp(vk)],
            None => Seq::empty(),
        };
        win + shift + ctrl
    }

    /// Tracking events keeps each slot to the modifiers of its class.
    pub proof fn lemma_track_all_wf(self, events: Seq<KeyInput>)
        requires
            self.wf(),
        ensures
            self.track_all(events).wf(),
        decreases events.len(),
    {
        if events.len() > 0 {
            self.lemma_track_all_wf(events.drop_last());
        }
    }

    /// The state at the start of a key string: no modifier is held.
    pub fn new() -> (state: KeyState)
        ensures
            state == KeyState::idle(),
            state.wf(),
    {
        KeyState { shift: None, ctrl: None, alt: None, win: None }
    }
}

/// The event, if one is needed, that brings shift to where a literal key
/// wants it: the generic shift key goes down if the key needs shift and
/// none is held; the shift key that is held goes up if the key needs none.
pub open spec fn shift_events(held: KeyState, shift: bool) -> Seq<KeyInput> {
    if shift && held.shift is None {
        seq![KeyInput::KeyDown(VK_SHIFT)]
    } else if !shift && held.shift is Some {
        seq![KeyInput::KeyUp(held.shift->0)]
    } else {
        Seq::empty()
    }
}

/// The events that type one literal key: shift is brought to where the key
/// wants it, then the key goes down and up.
pub open spec fn literal_events(held: KeyState, vk: u8, shift: bool) -> Seq<KeyInput> {
    shift_events(held, shift) + seq![KeyInput::KeyDown(vk), KeyInput::KeyUp(vk)]
}

/// Appends the press of `vk` and records it if `vk` is a modifier.
pub fn push_key_down(vk: u8, inputs: &mut Vec<KeyInput>, state: &mut KeyState)
    ensures
        final(inputs)@ == old(inputs)@.push(KeyInput::KeyDown(vk)),
        *final(state) == old(state).press(vk),
        old(state).wf() ==> final(state).wf(),
{
    inputs.push(KeyInput::KeyDown(vk));
    if is_shift_key(vk) {
        state.shift = Some(vk);
    }
    if is_ctrl_key(vk) {
        state.ctrl = Some(vk);
    }
    if is_alt_key(vk) {
        state.alt = Some(vk);
    }
    if is_win_key(vk) {
        state.win = Some(vk);
    }
}

/// Appends the release of `vk` and clears the slot of its modifier class.
pub fn push_key_up(vk: u8, inputs: &mut Vec<KeyInput>, state: &mut KeyState)
    ensures
        final(inputs)@ == old(inputs)@.push(KeyInput::KeyUp(vk)),
        *final(state) == old(state).release(vk),
        old(state).wf() ==> final(state).wf(),
{
    inputs.push(KeyInput::KeyUp(vk));
    if is_shift_key(vk) {
        state.shift = None;
    }
    if is_ctrl_key(vk) {
        state.ctrl = None;
    }
    if is_alt_key(vk) {
        state.alt = None;
    }
    if is_win_key(vk) {
        state.win = None;
    }
}

/// Appends the events that type the literal key `vk`, which needs shift
/// held if `shift`. This never fails.
pub fn push_key_down_and_up(
    vk: u8,
    shift: bool,
    inputs: &mut Vec<KeyInput>,
    state: &mut KeyState,
) -> (r: Result<(), KeyError>)
    ensures
        r is Ok,
        final(inputs)@ == old(inputs)@ + literal_events(*old(state), vk, shift),
        *final(state) == old(state).after_literal(shift),
        old(state).wf() ==> final(state).wf(),
{
    if shift && state.shift.is_none() {
        inputs.push(KeyInput::KeyDown(VK_SHIFT));
        state.shift = Some(VK_SHIFT);
    } else if !shift {
        if let Some(held) = state.shift {
            inputs.push(KeyInput::KeyUp(held));
            state.shift = None;
        }
    }
    inputs.push(KeyInput::KeyDown(vk));
    inputs.push(KeyInput::KeyUp(vk));
    assert(inputs@ =~= old(inputs)@ + literal_events(*old(state), vk, shift));
    Ok(())
}

/// Appends the releases of the held Windows, shift and control keys, in
/// that order, and clears their slots. A held alt key stays held.
pub fn mod_keys_up(inputs: &mut Vec<KeyInput>, state: &mut KeyState)
    ensures
        final(inputs)@ == old(inputs)@ + old(state).releases(),
        *final(state) == (KeyState { shift: None, ctrl: None, alt: old(state).alt, win: None }),
        old(state).wf() ==> final(state).wf(),
{
    if let Some(vk) = state.win {
        inputs.push(KeyInput::KeyUp(vk));
        state.win = None;
    }
    if let Some(vk) = state.shift {
        inputs.push(KeyInput::KeyUp(vk));
        state.shift = None;
    }
    if let Some(vk) = state.ctrl {
        inputs.push(KeyInput::KeyUp(vk));
        state.ctrl = None;
    }
    assert(inputs@ =~= old(inputs)@ + old(state).releases());
}

} // verus!
