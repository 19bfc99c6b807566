//! What a key string means: the scanner's states and transitions, and the
//! events of each form of bracket group.

use crate::keyboard::error::KeyFault;
use crate::keyboard::events::{literal_events, KeyInput, KeyState};
use crate::keyboard::keys::{escaped_char, named_key};
use vstd::prelude::*;

verus! {

/// The key that types `c` in `layout`, and whether it needs shift.
pub open spec fn resolve_char(c: char, layout: Map<char, (u8, bool)>) -> Result<
    (u8, bool),
    KeyFault,
> {
    if layout.contains_key(c) {
        Ok(layout[c])
    } else {
        Err(KeyFault::CharResolutionFailed(c))
    }
}

/// The key that one part of a bracket group names, and whether it needs
/// shift: a key name, which never does; else an escape name or a single
/// character, as the layout types it.
pub open spec fn resolve_part(token: Seq<char>, layout: Map<char, (u8, bool)>) -> Result<
    (u8, bool),
    KeyFault,
> {
    if token.len() == 0 {
        Err(KeyFault::EmptyKeyName)
    } else if named_key(token) is Some {
        Ok((named_key(token)->0, false))
    } else if escaped_char(token) is Some {
        resolve_char(escaped_char(token)->0, layout)
    } else if token.len() == 1 {
        resolve_char(token[0], layout)
    } else {
        Err(KeyFault::UnknownKeyName(token))
    }
}

/// The events of a group in which an operator follows every part, such as
/// `<ctrl+>` or `<ctrl->`: each part goes down after `+` and up after `-`.
pub open spec fn explicit_events(parts: Seq<(u8, bool)>, seps: Seq<bool>) -> Seq<KeyInput> {
    Seq::new(
        parts.len(),
        |i: int|
            if seps[i] {
                KeyInput::KeyDown(parts[i].0)
            } else {
                KeyInput::KeyUp(parts[i].0)
            },
    )
}

/// The events of a combination such as `<ctrl+c>`: every part goes down in
/// the order listed, then every part goes up in the reverse order.
pub open spec fn combination_events(parts: Seq<(u8, bool)>) -> Seq<KeyInput> {
    Seq::new(
        2 * parts.len(),
        |i: int|
            if i < parts.len() {
                KeyInput::KeyDown(parts[i].0)
            } else {
                KeyInput::KeyUp(parts[2 * parts.len() - 1 - i].0)
            },
    )
}

/// Every operator of the group is `+`.
pub open spec fn all_plus(seps: Seq<bool>) -> bool {
    forall|i: int| 0 <= i < seps.len() ==> seps[i]
}

/// The events of a closed bracket group with the parts `parts`, where
/// `seps[i]` tells whether `+` (else `-`) follows part `i`, typed while
/// `held` is held. A single name is typed as a literal key; a list in which
/// an operator follows every part presses and releases as told; a
/// combination has one operator less than parts, all of them `+`.
pub open spec fn group_events(held: KeyState, parts: Seq<(u8, bool)>, seps: Seq<bool>) -> Result<
    Seq<KeyInput>,
    KeyFault,
> {
    if parts.len() == 0 {
        Err(KeyFault::EmptyBracketGroup)
    } else if seps.len() == 0 {
        Ok(literal_events(held, parts[0].0, parts[0].1))
    } else if parts.len() == seps.len() {
        Ok(explicit_events(parts, seps))
    } else if all_plus(seps) {
        Ok(combination_events(parts))
    } else {
        Err(KeyFault::MixedOperatorsInCombination)
    }
}

/// The held modifiers after the events of a closed bracket group.
pub open spec fn group_state(held: KeyState, parts: Seq<(u8, bool)>, seps: Seq<bool>) -> KeyState {
    if parts.len() == 0 {
        held
    } else if seps.len() == 0 {
        held.after_literal(parts[0].1)
    } else if parts.len() == seps.len() {
        held.track_all(explicit_events(parts, seps))
    } else {
        held.track_all(combination_events(parts))
    }
}

/// The scanner between two characters of the text.
pub struct Scan {
    /// The events of the text read so far.
    pub events: Seq<KeyInput>,
    /// The modifiers that those events leave held.
    pub held: KeyState,
    /// Whether the scanner is inside a bracket group.
    pub in_bracket: bool,
    /// The characters of the part that is being read.
    pub token: Seq<char>,
    /// The parts of the open group that are complete.
    pub parts: Seq<(u8, bool)>,
    /// For each operator read in the open group, whether it is `+`.
    pub seps: Seq<bool>,
}

impl Scan {
    /// The scanner before the first character.
    pub open spec fn start() -> Scan {
        Scan {
            events: Seq::empty(),
            held: KeyState::idle(),
            in_bracket: false,
            token: Seq::empty(),
            parts: Seq::empty(),
            seps: Seq::empty(),
        }
    }

    /// Inside a group an operator follows every complete part; outside a
    /// group no part is pending or complete; and each modifier that is held
    /// is held for its own class.
    pub open spec fn wf(self) -> bool {
        &&& self.held.wf()
        &&& self.parts.len() == self.seps.len()
        &&& !self.in_bracket ==> self.token.len() == 0 && self.parts.len() == 0
    }

    /// The complete parts once the pending part, if there is one, has been
    /// resolved and added.
    pub open spec fn flushed(self, layout: Map<char, (u8, bool)>) -> Result<
        Seq<(u8, bool)>,
        KeyFault,
    > {
        if self.token.len() == 0 {
            Ok(self.parts)
        } else {
            match resolve_part(self.token, layout) {
                Ok(part) => Ok(self.parts.push(part)),
                Err(fault) => Err(fault),
            }
        }
    }

    /// The scanner after the `>` that closes a group with the parts `parts`.
    pub open spec fn close(self, parts: Seq<(u8, bool)>) -> Result<Scan, KeyFault> {
        match group_events(self.held, parts, self.seps) {
            Ok(events) => Ok(
                Scan {
                    events: self.events + events,
                    held: group_state(self.held, parts, self.seps),
                    in_bracket: false,
                    token: Seq::empty(),
                    parts: Seq::empty(),
                    seps: Seq::empty(),
                },
            ),
            Err(fault) => Err(fault),
        }
    }

    /// The scanner after the character `c`.
    pub open spec fn step(self, c: char, layout: Map<char, (u8, bool)>) -> Result<Scan, KeyFault> {
        if !self.in_bracket {
            if c == '<' {
                Ok(Scan { in_bracket: true, parts: Seq::empty(), seps: Seq::empty(), ..self })
            } else {
                match resolve_char(c, layout) {
                    Ok((vk, shift)) => Ok(
                        Scan {
                            events: self.events + literal_events(self.held, vk, shift),
                            held: self.held.after_literal(shift),
                            ..self
                        },
                    ),
                    Err(fault) => Err(fault),
                }
            }
        } else if c != '>' && c != '-' && c != '+' {
            Ok(Scan { token: self.token.push(c), ..self })
        } else {
            match self.flushed(layout) {
                Err(fault) => Err(fault),
                Ok(parts) => if c == '>' {
                    self.close(parts)
                } else if self.seps.len() >= parts.len() {
                    Err(KeyFault::SeparatorWithoutPrecedingKey)
                } else {
                    Ok(Scan { token: Seq::empty(), parts, seps: self.seps.push(c == '+'), ..self })
                },
            }
        }
    }

    /// The scanner after the characters of `text`, or the fault at the first
    /// character that it refuses.
    pub open spec fn run(self, text: Seq<char>, layout: Map<char, (u8, bool)>) -> Result<
        Scan,
        KeyFault,
    >
        decreases text.len(),
    {
        if text.len() == 0 {
            Ok(self)
        } else {
            match self.run(text.drop_last(), layout) {
                Ok(scan) => scan.step(text.last(), layout),
                Err(fault) => Err(fault),
            }
        }
    }
}

/// Reading a character keeps the scanner well formed.
pub proof fn lemma_step_wf(scan: Scan, c: char, layout: Map<char, (u8, bool)>)
    requires
        scan.wf(),
    ensures
        scan.step(c, layout) matches Ok(after) ==> after.wf(),
{
    if let Ok(parts) = scan.flushed(layout) {
        if group_events(scan.held, parts, scan.seps) is Ok {
            scan.held.lemma_track_all_wf(explicit_events(parts, scan.seps));
            scan.held.lemma_track_all_wf(combination_events(parts));
        }
    }
}

/// Reading text keeps the scanner well formed: whatever has been read,
/// the open group has as many operators as complete parts.
pub proof fn lemma_run_wf(scan: Scan, text: Seq<char>, layout: Map<char, (u8, bool)>)
    requires
        scan.wf(),
    ensures
        scan.run(text, layout) matches Ok(after) ==> after.wf(),
    decreases text.len(),
{
    if text.len() > 0 {
        lemma_run_wf(scan, text.drop_last(), layout);
        if let Ok(mid) = scan.run(text.drop_last(), layout) {
            lemma_step_wf(mid, text.last(), layout);
        }
    }
}

/// The characters that compiling `text` may ask a layout for: those of the
/// text, and the four that escape names stand for.
pub open spec fn needed_chars(text: Seq<char>) -> Seq<char> {
    text + seq!['<', '>', '-', '+']
}

/// Reading `a` and then `b` is reading `a + b`; a fault in `a` is the fault
/// of the whole.
pub proof fn lemma_run_concat(
    scan: Scan,
    a: Seq<char>,
    b: Seq<char>,
    layout: Map<char, (u8, bool)>,
)
    ensures
        scan.run(a + b, layout) == match scan.run(a, layout) {
            Ok(mid) => mid.run(b, layout),
            Err(fault) => Err(fault),
        },
    decreases b.len(),
{
    if b.len() == 0 {
        assert(a + b =~= a);
    } else {
        assert((a + b).drop_last() =~= a + b.drop_last());
        lemma_run_concat(scan, a, b.drop_last(), layout);
    }
}

/// The events that `text` compiles to: those of the scanner after the whole
/// text, which must have left every bracket group that it entered.
pub open spec fn compile(text: Seq<char>, layout: Map<char, (u8, bool)>) -> Result<
    Seq<KeyInput>,
    KeyFault,
> {
    match Scan::start().run(text, layout) {
        Ok(scan) => if scan.in_bracket {
            Err(KeyFault::UnterminatedBracket)
        } else {
            Ok(scan.events)
        },
        Err(fault) => Err(fault),
    }
}

} // verus!
