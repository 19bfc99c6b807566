//! The compiler from key strings to key events.

use crate::keyboard::error::{KeyError, KeyFault};
use crate::keyboard::events::{
    push_key_down, push_key_down_and_up, push_key_up, KeyInput, KeyState,
};
use crate::keyboard::grammar::{
    all_plus, combination_events, compile, explicit_events, group_events, group_state,
    lemma_run_concat, needed_chars, resolve_char, resolve_part, Scan,
};
use crate::keyboard::keys::{escaped_key_char, key_name_to_vk};
use crate::keyboard::layout::KeyLayout;
use vstd::prelude::*;

verus! {

/// `String::push`: appends `c` to the end of `s`.
#[verifier::external_body]
fn push_char(s: &mut String, c: char)
    ensures
        final(s)@ == old(s)@.push(c),
{
    s.push(c)
}

/// The characters that compiling `s` may ask a layout for: a layout that
/// records the platform's scan of each of them serves to compile `s`.
pub fn chars_to_scan(s: &str) -> (chars: Vec<char>)
    ensures
        chars@ == needed_chars(s@),
{
    let mut chars: Vec<char> = Vec::new();
    for c in it: s.chars()
        invariant
            it.seq() == s@,
            chars@ == s@.take(it.index()),
    {
        chars.push(c);
        assert(chars@ =~= s@.take(it.index() + 1));
    }
    assert(s@.take(s@.len() as int) =~= s@);
    chars.push('<');
    chars.push('>');
    chars.push('-');
    chars.push('+');
    assert(chars@ =~= needed_chars(s@));
    chars
}

/// Resolves one character with `layout`.
pub fn parse_char(c: char, layout: &KeyLayout) -> (r: Result<(u8, bool), KeyError>)
    ensures
        match resolve_char(c, layout@) {
            Ok(key) => r == Ok::<(u8, bool), KeyError>(key),
            Err(fault) => r matches Err(e) && e@ == fault,
        },
{
    match layout.resolve(c) {
        Some(key) => Ok(key),
        None => Err(KeyError::CharResolutionFailed(c)),
    }
}

/// Resolves one part of a bracket group: the text between two of its
/// delimiters.
pub fn parse_part(s: &str, layout: &KeyLayout) -> (r: Result<(u8, bool), KeyError>)
    ensures
        match resolve_part(s@, layout@) {
            Ok(key) => r == Ok::<(u8, bool), KeyError>(key),
            Err(fault) => r matches Err(e) && e@ == fault,
        },
{
    if s.is_empty() {
        return Err(KeyError::EmptyKeyName);
    }
    if let Some(vk) = key_name_to_vk(s) {
        return Ok((vk, false));
    }
    if let Some(c) = escaped_key_char(s) {
        return parse_char(c, layout);
    }
    if s.unicode_len() == 1 {
        return parse_char(s.get_char(0), layout);
    }
    Err(KeyError::UnknownKeyName(s.to_owned()))
}

/// Appends the events of a closed bracket group with the parts `parts`,
/// where `seps[i]` tells whether `+` (else `-`) follows part `i`. On an
/// error nothing is appended.
pub fn push_group(
    parts: &Vec<(u8, bool)>,
    seps: &Vec<bool>,
    inputs: &mut Vec<KeyInput>,
    state: &mut KeyState,
) -> (r: Result<(), KeyError>)
    requires
        seps.len() <= parts.len() <= seps.len() + 1,
    ensures
        match group_events(*old(state), parts@, seps@) {
            Ok(events) => {
                &&& r is Ok
                &&& final(inputs)@ == old(inputs)@ + events
                &&& *final(state) == group_state(*old(state), parts@, seps@)
            },
            Err(fault) => {
                &&& r matches Err(e) && e@ == fault
                &&& final(inputs)@ == old(inputs)@
                &&& *final(state) == *old(state)
            },
        },
        old(state).wf() ==> final(state).wf(),
{
    if parts.len() == 0 {
        return Err(KeyError::EmptyBracketGroup);
    }
    if seps.len() == 0 {
        return push_key_down_and_up(parts[0].0, parts[0].1, inputs, state);
    }
    let ghost before = inputs@;
    let ghost held = *state;
    let n = parts.len();
    if n == seps.len() {
        let ghost events = explicit_events(parts@, seps@);
        for i in 0..n
            invariant
                n == parts.len(),
                n == seps.len(),
                events == explicit_events(parts@, seps@),
                inputs@ == before + events.take(i as int),
                *state == held.track_all(events.take(i as int)),
        {
            if seps[i] {
                push_key_down(parts[i].0, inputs, state);
            } else {
                push_key_up(parts[i].0, inputs, state);
            }
            proof {
                assert(events.take(i + 1).drop_last() =~= events.take(i as int));
                assert(inputs@ =~= before + events.take(i + 1));
            }
        }
        proof {
            assert(events.take(n as int) =~= events);
            if held.wf() {
                held.lemma_track_all_wf(events);
            }
        }
        return Ok(());
    }
    for i in 0..seps.len()
        invariant
            0 < seps.len() < parts.len(),
            inputs@ == old(inputs)@,
            *state == *old(state),
            forall|j: int| 0 <= j < i ==> seps@[j],
    {
        if !seps[i] {
            assert(!all_plus(seps@));
            return Err(KeyError::MixedOperatorsInCombination);
        }
    }
    let ghost events = combination_events(parts@);
    for i in 0..n
        invariant
            n == parts.len(),
            events == combination_events(parts@),
            inputs@ == before + events.take(i as int),
            *state == held.track_all(events.take(i as int)),
    {
        push_key_down(parts[i].0, inputs, state);
        proof {
            assert(events.take(i + 1).drop_last() =~= events.take(i as int));
            assert(inputs@ =~= before + events.take(i + 1));
        }
    }
    for i in 0..n
        invariant
            n == parts.len(),
            events == combination_events(parts@),
            inputs@ == before + events.take(n + i),
            *state == held.track_all(events.take(n + i)),
    {
        push_key_up(parts[n - 1 - i].0, inputs, state);
        proof {
            assert(events.take(n + i + 1).drop_last() =~= events.take(n + i));
            assert(inputs@ =~= before + events.take(n + i + 1));
        }
    }
    proof {
        assert(events.take(n + n) =~= events);
        if held.wf() {
            held.lemma_track_all_wf(events);
        }
    }
    Ok(())
}

/// The scanner's working state.
struct Scanner {
    result: Vec<KeyInput>,
    state: KeyState,
    in_bracket: bool,
    part: String,
    parts: Vec<(u8, bool)>,
    seps: Vec<bool>,
}

impl View for Scanner {
    type V = Scan;

    closed spec fn view(&self) -> Scan {
        Scan {
            events: self.result@,
            held: self.state,
            in_bracket: self.in_bracket,
            token: self.part@,
            parts: self.parts@,
            seps: self.seps@,
        }
    }
}

impl Scanner {
    spec fn wf(&self) -> bool {
        self@.wf()
    }

    fn new() -> (scanner: Scanner)
        ensures
            scanner@ == Scan::start(),
            scanner.wf(),
    {
        Scanner {
            result: Vec::new(),
            state: KeyState::new(),
            in_bracket: false,
            part: String::new(),
            parts: Vec::new(),
            seps: Vec::new(),
        }
    }

    /// Resolves the pending part, if there is one, and adds it to the
    /// complete parts.
    fn flush(&mut self, layout: &KeyLayout) -> (r: Result<(), KeyError>)
        ensures
            match old(self)@.flushed(layout@) {
                Ok(parts) => r is Ok && final(self)@ == (Scan {
                    token: Seq::empty(),
                    parts,
                    ..old(self)@
                }),
                Err(fault) => r matches Err(e) && e@ == fault,
            },
    {
        if !self.part.as_str().is_empty() {
            match parse_part(self.part.as_str(), layout) {
                Ok(part) => {
                    self.part = String::new();
                    self.parts.push(part);
                },
                Err(e) => {
                    return Err(e);
                },
            }
        }
        assert(self@.token =~= Seq::empty());
        Ok(())
    }

    /// Reads the character `c`.
    fn step(&mut self, c: char, layout: &KeyLayout) -> (r: Result<(), KeyError>)
        requires
            old(self).wf(),
        ensures
            match old(self)@.step(c, layout@) {
                Ok(scan) => r is Ok && final(self)@ == scan && final(self).wf(),
                Err(fault) => r matches Err(e) && e@ == fault,
            },
    {
        if !self.in_bracket {
            if c == '<' {
                self.in_bracket = true;
                self.parts.clear();
                self.seps.clear();
                return Ok(());
            }
            let (vk, shift) = parse_char(c, layout)?;
            return push_key_down_and_up(vk, shift, &mut self.result, &mut self.state);
        }
        if c != '>' && c != '-' && c != '+' {
            push_char(&mut self.part, c);
            return Ok(());
        }
        self.flush(layout)?;
        if c == '+' || c == '-' {
            if self.seps.len() >= self.parts.len() {
                return Err(KeyError::SeparatorWithoutPrecedingKey);
            }
            self.seps.push(c == '+');
            return Ok(());
        }
        push_group(&self.parts, &self.seps, &mut self.result, &mut self.state)?;
        self.in_bracket = false;
        self.parts.clear();
        self.seps.clear();
        Ok(())
    }
}

/// Compiles the key string `s` into the events that type it on `layout`.
pub fn parse_str(s: &str, layout: &KeyLayout) -> (r: Result<Vec<KeyInput>, KeyError>)
    ensures
        match compile(s@, layout@) {
            Ok(events) => r matches Ok(v) && v@ == events,
            Err(fault) => r matches Err(e) && e@ == fault,
        },
{
    let mut scanner = Scanner::new();
    for c in it: s.chars()
        invariant
            it.seq() == s@,
            scanner.wf(),
            Scan::start().run(s@.take(it.index()), layout@) == Ok::<Scan, KeyFault>(scanner@),
    {
        proof {
            let read = s@.take(it.index() + 1);
            assert(read.drop_last() =~= s@.take(it.index()));
            assert(s@ =~= read + s@.skip(it.index() + 1));
            lemma_run_concat(Scan::start(), read, s@.skip(it.index() + 1), layout@);
        }
        scanner.step(c, layout)?;
    }
    assert(s@.take(s@.len() as int) =~= s@);
    if scanner.in_bracket {
        return Err(KeyError::UnterminatedBracket);
    }
    Ok(scanner.result)
}

} // verus!
