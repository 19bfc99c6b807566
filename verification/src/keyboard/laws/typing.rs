//! Laws of literal text and of groups of a single part: how runs of
//! characters move shift, and what escape names type.

use crate::keyboard::error::KeyFault;
use crate::keyboard::events::{literal_events, shift_events, KeyInput, KeyState};
use crate::keyboard::grammar::{compile, lemma_run_concat, resolve_char, resolve_part, Scan};
use crate::keyboard::keys::{escaped_char, lemma_escape_names, VK_SHIFT};
use vstd::prelude::*;

verus! {

/// Reading one character is one step.
pub proof fn lemma_run_one(scan: Scan, c: char, layout: Map<char, (u8, bool)>)
    ensures
        scan.run(seq![c], layout) == scan.step(c, layout),
{
    assert(seq![c].drop_last() =~= Seq::<char>::empty());
    reveal_with_fuel(Scan::run, 2);
}

/// `c` is one of the three characters that end a part inside a group.
pub open spec fn ends_part(c: char) -> bool {
    c == '>' || c == '-' || c == '+'
}

/// No character of `token` ends a part.
pub open spec fn unbroken(token: Seq<char>) -> bool {
    forall|i: int| 0 <= i < token.len() ==> !ends_part(#[trigger] token[i])
}

/// Inside a group, characters that end no part are gathered into the
/// pending part, and nothing else changes.
pub proof fn lemma_run_token(scan: Scan, token: Seq<char>, layout: Map<char, (u8, bool)>)
    requires
        scan.in_bracket,
        unbroken(token),
    ensures
        scan.run(token, layout) == Ok::<Scan, KeyFault>(
            Scan { token: scan.token + token, ..scan },
        ),
    decreases token.len(),
{
    if token.len() == 0 {
        assert(scan.token + token =~= scan.token);
    } else {
        lemma_run_token(scan, token.drop_last(), layout);
        assert(!ends_part(token[token.len() - 1]));
        assert((scan.token + token.drop_last()).push(token.last()) =~= scan.token + token);
    }
}

/// The scanner outside a group after a group of a single part, such as
/// `<pagedown>`, `<lt>` or `<a>`, given as the part's characters: the part
/// is typed as a literal key, or the fault of the part is that of the
/// group.
pub open spec fn after_single(scan: Scan, token: Seq<char>, layout: Map<char, (u8, bool)>) -> Result<
    Scan,
    KeyFault,
> {
    match resolve_part(token, layout) {
        Ok((vk, shift)) => Ok(
            Scan {
                events: scan.events + literal_events(scan.held, vk, shift),
                held: scan.held.after_literal(shift),
                in_bracket: false,
                token: Seq::empty(),
                parts: Seq::empty(),
                seps: Seq::empty(),
            },
        ),
        Err(fault) => Err(fault),
    }
}

/// A group of a single part is typed as a literal key.
pub proof fn lemma_run_single(scan: Scan, token: Seq<char>, layout: Map<char, (u8, bool)>)
    requires
        !scan.in_bracket,
        scan.token.len() == 0,
        token.len() > 0,
        unbroken(token),
    ensures
        scan.run(seq!['<'] + token + seq!['>'], layout) == after_single(scan, token, layout),
{
    let opened = Scan { in_bracket: true, parts: Seq::empty(), seps: Seq::empty(), ..scan };
    let filled = Scan { token: scan.token + token, ..opened };
    lemma_run_one(scan, '<', layout);
    lemma_run_token(opened, token, layout);
    lemma_run_concat(scan, seq!['<'], token, layout);
    lemma_run_one(filled, '>', layout);
    lemma_run_concat(scan, seq!['<'] + token, seq!['>'], layout);
    assert(scan.token + token =~= token);
}

/// A key string that is one group of a single part compiles to the events
/// that type the part as a literal key with no modifier held.
pub proof fn lemma_compile_single(token: Seq<char>, layout: Map<char, (u8, bool)>)
    requires
        token.len() > 0,
        unbroken(token),
    ensures
        compile(seq!['<'] + token + seq!['>'], layout) == match resolve_part(token, layout) {
            Ok((vk, shift)) => Ok(literal_events(KeyState::idle(), vk, shift)),
            Err(fault) => Err(fault),
        },
{
    lemma_run_single(Scan::start(), token, layout);
    match resolve_part(token, layout) {
        Ok((vk, shift)) => {
            assert(Seq::<KeyInput>::empty() + literal_events(KeyState::idle(), vk, shift)
                =~= literal_events(KeyState::idle(), vk, shift));
        },
        Err(_) => {},
    }
}

/// A group that holds an escape name types the character that the name
/// stands for, as the layout types it: `<lt>` types `<`, though a bare `<`
/// would open a group.
pub proof fn lemma_compile_escape(name: Seq<char>, layout: Map<char, (u8, bool)>)
    requires
        escaped_char(name) is Some,
    ensures
        compile(seq!['<'] + name + seq!['>'], layout) == match resolve_char(
            escaped_char(name)->0,
            layout,
        ) {
            Ok((vk, shift)) => Ok(literal_events(KeyState::idle(), vk, shift)),
            Err(fault) => Err(fault),
        },
{
    lemma_escape_names();
    reveal_strlit("lt");
    reveal_strlit("gt");
    reveal_strlit("minus");
    reveal_strlit("plus");
    assert(name.len() > 0);
    assert(unbroken(name));
    lemma_compile_single(name, layout);
}

/// The key string `<lt>` compiles to the events that type `<`.
pub proof fn lemma_compile_lt(layout: Map<char, (u8, bool)>)
    ensures
        compile("<lt>"@, layout) == match resolve_char('<', layout) {
            Ok((vk, shift)) => Ok(literal_events(KeyState::idle(), vk, shift)),
            Err(fault) => Err(fault),
        },
{
    reveal_strlit("<lt>");
    reveal_strlit("lt");
    assert("<lt>"@ =~= seq!['<'] + "lt"@ + seq!['>']);
    lemma_compile_escape("lt"@, layout);
}

/// The events that tap each of `keys` in turn: down, then up.
pub open spec fn taps(keys: Seq<u8>) -> Seq<KeyInput> {
    Seq::new(
        2 * keys.len(),
        |i: int|
            if i % 2 == 0 {
                KeyInput::KeyDown(keys[i / 2])
            } else {
                KeyInput::KeyUp(keys[i / 2])
            },
    )
}

/// The key that types each character of `text` in `layout`.
pub open spec fn typed_keys(text: Seq<char>, layout: Map<char, (u8, bool)>) -> Seq<u8> {
    text.map_values(|c: char| layout[c].0)
}

/// `text` is a run of literal characters that `layout` types, all of them
/// with shift held if `shift`, and all of them without it if not.
pub open spec fn literal_run(text: Seq<char>, layout: Map<char, (u8, bool)>, shift: bool) -> bool {
    forall|i: int|
        0 <= i < text.len() ==> {
            &&& #[trigger] text[i] != '<'
            &&& layout.contains_key(text[i])
            &&& layout[text[i]].1 == shift
        }
}

/// Outside a group, a run of characters that all want shift in the same
/// place moves shift once at most, before the first of them, and then taps
/// the key of each: shift is not moved for each character.
pub proof fn lemma_run_literals(
    scan: Scan,
    text: Seq<char>,
    shift: bool,
    layout: Map<char, (u8, bool)>,
)
    requires
        !scan.in_bracket,
        text.len() > 0,
        literal_run(text, layout, shift),
    ensures
        scan.run(text, layout) == Ok::<Scan, KeyFault>(
            Scan {
                events: scan.events + shift_events(scan.held, shift) + taps(
                    typed_keys(text, layout),
                ),
                held: scan.held.after_literal(shift),
                ..scan
            },
        ),
    decreases text.len(),
{
    let c = text.last();
    assert(text[text.len() - 1] != '<');
    let keys = typed_keys(text, layout);
    let tap = seq![KeyInput::KeyDown(layout[c].0), KeyInput::KeyUp(layout[c].0)];
    if text.len() == 1 {
        assert(text =~= seq![c]);
        lemma_run_one(scan, c, layout);
        assert(taps(keys) =~= tap);
        assert(scan.events + literal_events(scan.held, layout[c].0, shift) =~= scan.events
            + shift_events(scan.held, shift) + taps(keys));
    } else {
        let front = text.drop_last();
        lemma_run_literals(scan, front, shift, layout);
        let mid = scan.run(front, layout)->Ok_0;
        assert(shift_events(mid.held, shift) =~= Seq::<KeyInput>::empty());
        assert(typed_keys(front, layout) =~= keys.drop_last());
        assert(taps(keys) =~= taps(keys.drop_last()) + tap);
        assert(mid.events + literal_events(mid.held, layout[c].0, shift) =~= scan.events
            + shift_events(scan.held, shift) + taps(keys));
    }
}

/// A key string that is a run of characters typed with shift, such as a
/// run of capital letters, compiles to one press of shift and the taps of
/// the characters' keys.
pub proof fn lemma_compile_shifted_run(run: Seq<char>, layout: Map<char, (u8, bool)>)
    requires
        run.len() > 0,
        literal_run(run, layout, true),
    ensures
        compile(run, layout) == Ok::<Seq<KeyInput>, KeyFault>(
            seq![KeyInput::KeyDown(VK_SHIFT)] + taps(typed_keys(run, layout)),
        ),
{
    lemma_run_literals(Scan::start(), run, true, layout);
    assert(Seq::<KeyInput>::empty() + shift_events(KeyState::idle(), true) + taps(
        typed_keys(run, layout),
    ) =~= seq![KeyInput::KeyDown(VK_SHIFT)] + taps(typed_keys(run, layout)));
}

/// A run of characters typed with shift, between characters typed without
/// it, is wrapped in one press and one release of shift: the text before
/// is tapped, shift goes down, the run is tapped, shift goes up, and the
/// text after is tapped.
pub proof fn lemma_compile_wrapped_run(
    before: Seq<char>,
    run: Seq<char>,
    after: Seq<char>,
    layout: Map<char, (u8, bool)>,
)
    requires
        literal_run(before, layout, false),
        run.len() > 0,
        literal_run(run, layout, true),
        after.len() > 0,
        literal_run(after, layout, false),
    ensures
        compile(before + run + after, layout) == Ok::<Seq<KeyInput>, KeyFault>(
            taps(typed_keys(before, layout)) + seq![KeyInput::KeyDown(VK_SHIFT)] + taps(
                typed_keys(run, layout),
            ) + seq![KeyInput::KeyUp(VK_SHIFT)] + taps(typed_keys(after, layout)),
        ),
{
    let start = Scan::start();
    let first = Scan { events: taps(typed_keys(before, layout)), ..start };
    if before.len() == 0 {
        assert(taps(typed_keys(before, layout)) =~= Seq::<KeyInput>::empty());
        assert(first == start);
    } else {
        lemma_run_literals(start, before, false, layout);
        assert(start.events + shift_events(start.held, false) + taps(typed_keys(before, layout))
            =~= first.events);
    }
    assert(start.run(before, layout) == Ok::<Scan, KeyFault>(first));
    lemma_run_literals(first, run, true, layout);
    let second = first.run(run, layout)->Ok_0;
    lemma_run_literals(second, after, false, layout);
    lemma_run_concat(start, before, run, layout);
    lemma_run_concat(start, before + run, after, layout);
    let third = second.run(after, layout)->Ok_0;
    assert(third.events =~= taps(typed_keys(before, layout)) + seq![KeyInput::KeyDown(VK_SHIFT)]
        + taps(typed_keys(run, layout)) + seq![KeyInput::KeyUp(VK_SHIFT)] + taps(
        typed_keys(after, layout),
    ));
}

/// How often `event` occurs in `events`.
pub open spec fn occurrences(events: Seq<KeyInput>, event: KeyInput) -> nat
    decreases events.len(),
{
    if events.len() == 0 {
        0
    } else {
        occurrences(events.drop_last(), event) + if events.last() == event {
            1nat
        } else {
            0nat
        }
    }
}

/// An event occurs in two sequences joined as often as in the one and in
/// the other together.
pub proof fn lemma_occurrences_concat(a: Seq<KeyInput>, b: Seq<KeyInput>, event: KeyInput)
    ensures
        occurrences(a + b, event) == occurrences(a, event) + occurrences(b, event),
    decreases b.len(),
{
    if b.len() == 0 {
        assert(a + b =~= a);
    } else {
        assert((a + b).drop_last() =~= a + b.drop_last());
        lemma_occurrences_concat(a, b.drop_last(), event);
    }
}

/// Taps hold no event of a key that is not tapped.
pub proof fn lemma_occurrences_taps(keys: Seq<u8>, event: KeyInput)
    requires
        !keys.contains(event.key()),
    ensures
        occurrences(taps(keys), event) == 0,
    decreases keys.len(),
{
    if keys.len() == 0 {
        assert(taps(keys) =~= Seq::<KeyInput>::empty());
    } else {
        let last = keys.last();
        let tap = seq![KeyInput::KeyDown(last), KeyInput::KeyUp(last)];
        assert(keys[keys.len() - 1] != event.key());
        assert forall|k: u8| keys.drop_last().contains(k) implies keys.contains(k) by {
            let i = choose|i: int| 0 <= i < keys.drop_last().len() && keys.drop_last()[i] == k;
            assert(keys[i] == k);
        }
        lemma_occurrences_taps(keys.drop_last(), event);
        assert(taps(keys) =~= taps(keys.drop_last()) + tap);
        lemma_occurrences_concat(taps(keys.drop_last()), tap, event);
        assert(tap.drop_last() =~= seq![KeyInput::KeyDown(last)]);
        assert(tap.drop_last().drop_last() =~= Seq::<KeyInput>::empty());
        reveal_with_fuel(occurrences, 3);
    }
}

/// In the events of a run typed with shift between text typed without it,
/// the generic shift key goes down exactly once and up exactly once,
/// however long the run is, unless the layout types a character with the
/// shift key itself.
pub proof fn lemma_wrapped_run_moves_shift_once(before: Seq<u8>, run: Seq<u8>, after: Seq<u8>)
    requires
        !before.contains(VK_SHIFT),
        !run.contains(VK_SHIFT),
        !after.contains(VK_SHIFT),
    ensures
        occurrences(
            taps(before) + seq![KeyInput::KeyDown(VK_SHIFT)] + taps(run) + seq![
                KeyInput::KeyUp(VK_SHIFT),
            ] + taps(after),
            KeyInput::KeyDown(VK_SHIFT),
        ) == 1,
        occurrences(
            taps(before) + seq![KeyInput::KeyDown(VK_SHIFT)] + taps(run) + seq![
                KeyInput::KeyUp(VK_SHIFT),
            ] + taps(after),
            KeyInput::KeyUp(VK_SHIFT),
        ) == 1,
{
    let down = seq![KeyInput::KeyDown(VK_SHIFT)];
    let up = seq![KeyInput::KeyUp(VK_SHIFT)];
    assert(down.drop_last() =~= Seq::<KeyInput>::empty());
    assert(up.drop_last() =~= Seq::<KeyInput>::empty());
    reveal_with_fuel(occurrences, 2);
    assert forall|event: KeyInput| event.key() == VK_SHIFT implies occurrences(
        taps(before) + down + taps(run) + up + taps(after),
        event,
    ) == occurrences(down, event) + occurrences(up, event) by {
        lemma_occurrences_taps(before, event);
        lemma_occurrences_taps(run, event);
        lemma_occurrences_taps(after, event);
        lemma_occurrences_concat(taps(before), down, event);
        lemma_occurrences_concat(taps(before) + down, taps(run), event);
        lemma_occurrences_concat(taps(before) + down + taps(run), up, event);
        lemma_occurrences_concat(taps(before) + down + taps(run) + up, taps(after), event);
    }
    assert(KeyInput::KeyDown(VK_SHIFT).key() == VK_SHIFT);
    assert(KeyInput::KeyUp(VK_SHIFT).key() == VK_SHIFT);
}

} // verus!
