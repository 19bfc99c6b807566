//! Laws of hotkeys: what a descriptor holds of the keys it was read off.

use crate::keyboard::error::KeyFault;
use crate::keyboard::events::KeyInput;
use crate::keyboard::grammar::combination_events;
use crate::keyboard::hotkey::{hotkey_of, leading_presses, Chord, HotkeyDescriptor};
use crate::keyboard::keys::{modifier_of, Modifier};
use vstd::prelude::*;

verus! {

/// Some key of `keys` is a modifier of the class `class`.
pub open spec fn has_class(keys: Seq<u8>, class: Modifier) -> bool {
    exists|i: int| 0 <= i < keys.len() && modifier_of(#[trigger] keys[i]) == Some(class)
}

/// No two keys of `keys` are modifiers of the same class.
pub open spec fn classes_differ(keys: Seq<u8>) -> bool {
    forall|i: int, j: int|
        0 <= i < j < keys.len() && modifier_of(#[trigger] keys[i]) is Some ==> modifier_of(keys[i])
            != modifier_of(#[trigger] keys[j])
}

/// How many keys of `keys` are no modifiers.
pub open spec fn main_keys(keys: Seq<u8>) -> nat
    decreases keys.len(),
{
    if keys.len() == 0 {
        0
    } else {
        main_keys(keys.drop_first()) + if modifier_of(keys[0]) is None {
            1nat
        } else {
            0nat
        }
    }
}

/// Keys that are added to a chord without a fault bring their classes
/// into it, each for the first time, and one main key at most, which the
/// chord must not have had.
proof fn lemma_chord_reads(chord: Chord, events: Seq<KeyInput>)
    ensures
        chord.add_presses(events) matches Ok(full) ==> {
            let keys = leading_presses(events);
            &&& forall|class: Modifier|
                full.holds(class) == (chord.holds(class) || has_class(keys, class))
            &&& forall|class: Modifier| !(chord.holds(class) && has_class(keys, class))
            &&& classes_differ(keys)
            &&& match chord.vk {
                Some(vk) => full.vk == Some(vk) && main_keys(keys) == 0,
                None => match full.vk {
                    Some(vk) => keys.contains(vk) && modifier_of(vk) is None && main_keys(keys)
                        == 1,
                    None => main_keys(keys) == 0,
                },
            }
        },
        chord.add_presses(events) matches Err(fault) ==> fault == KeyFault::DuplicateModifier
            || fault == KeyFault::MultipleMainKeys,
    decreases events.len(),
{
    if events.len() > 0 {
        if let KeyInput::KeyDown(vk) = events[0] {
            if let Ok(next) = chord.add(vk) {
                let rest = events.drop_first();
                lemma_chord_reads(next, rest);
                if let Ok(full) = next.add_presses(rest) {
                    let keys = leading_presses(events);
                    let tail = leading_presses(rest);
                    assert(keys.drop_first() =~= tail);
                    assert(keys[0] == vk);
                    assert forall|class: Modifier| has_class(keys, class) == (modifier_of(vk)
                        == Some(class) || has_class(tail, class)) by {
                        if has_class(keys, class) {
                            let i = choose|i: int|
                                0 <= i < keys.len() && modifier_of(#[trigger] keys[i]) == Some(
                                    class,
                                );
                            if i > 0 {
                                assert(tail[i - 1] == keys[i]);
                            }
                        }
                        if has_class(tail, class) {
                            let i = choose|i: int|
                                0 <= i < tail.len() && modifier_of(#[trigger] tail[i]) == Some(
                                    class,
                                );
                            assert(keys[i + 1] == tail[i]);
                        }
                    }
                    if let Some(main) = full.vk {
                        if tail.contains(main) {
                            let i = choose|i: int| 0 <= i < tail.len() && tail[i] == main;
                            assert(keys[i + 1] == main);
                        }
                    }
                    assert forall|i: int, j: int|
                        0 <= i < j < keys.len() && modifier_of(#[trigger] keys[i])
                            is Some implies modifier_of(keys[i]) != modifier_of(
                            #[trigger] keys[j],
                        ) by {
                        assert(tail[j - 1] == keys[j]);
                        if i == 0 {
                            assert(next.holds(modifier_of(vk)->0));
                            assert(!has_class(tail, modifier_of(vk)->0));
                        } else {
                            assert(tail[i - 1] == keys[i]);
                        }
                    }
                }
            }
        }
    }
}

/// Keys of which no two are modifiers of the same class, none of a class
/// that the chord holds, and with no more main keys than the chord has
/// room for, are added to the chord without a fault.
proof fn lemma_chord_accepts(chord: Chord, events: Seq<KeyInput>)
    requires
        classes_differ(leading_presses(events)),
        forall|class: Modifier|
            !(chord.holds(class) && has_class(leading_presses(events), class)),
        main_keys(leading_presses(events)) <= if chord.vk is Some {
            0nat
        } else {
            1nat
        },
    ensures
        chord.add_presses(events) is Ok,
    decreases events.len(),
{
    if events.len() > 0 {
        if let KeyInput::KeyDown(vk) = events[0] {
            let rest = events.drop_first();
            let keys = leading_presses(events);
            let tail = leading_presses(rest);
            assert(keys.drop_first() =~= tail);
            assert(keys[0] == vk);
            assert(main_keys(keys) == main_keys(tail) + if modifier_of(vk) is None {
                1nat
            } else {
                0nat
            });
            match modifier_of(vk) {
                Some(class) => {
                    assert(modifier_of(keys[0]) == Some(class));
                    assert(has_class(keys, class));
                    assert(!chord.holds(class));
                },
                None => {
                    assert(chord.vk is None);
                },
            }
            assert(chord.add(vk) is Ok);
            let next = chord.add(vk)->Ok_0;
            assert forall|class: Modifier| !(next.holds(class) && has_class(tail, class)) by {
                assert(next.holds(class) == (chord.holds(class) || modifier_of(vk) == Some(
                    class,
                )));
                if has_class(tail, class) {
                    let i = choose|i: int|
                        0 <= i < tail.len() && modifier_of(#[trigger] tail[i]) == Some(class);
                    assert(keys[i + 1] == tail[i]);
                    assert(has_class(keys, class));
                    if modifier_of(vk) == Some(class) {
                        assert(modifier_of(keys[0]) != modifier_of(keys[i + 1]));
                    }
                }
            }
            assert forall|i: int, j: int|
                0 <= i < j < tail.len() && modifier_of(#[trigger] tail[i])
                    is Some implies modifier_of(tail[i]) != modifier_of(#[trigger] tail[j]) by {
                assert(keys[i + 1] == tail[i]);
                assert(keys[j + 1] == tail[j]);
            }
            lemma_chord_accepts(next, rest);
        }
    }
}

/// A hotkey is read off the keys pressed before the first release. It can
/// be read exactly when no two of them are modifiers of the same class and
/// one of them, no more and no less, is no modifier: then it holds the
/// classes of the modifiers among them, and that one key is its main key.
/// With no such key at all, and no class twice, the fault is that the main
/// key is missing.
pub proof fn lemma_hotkey_reads_presses(events: Seq<KeyInput>)
    ensures
        hotkey_of(events) is Ok <==> classes_differ(leading_presses(events)) && main_keys(
            leading_presses(events),
        ) == 1,
        hotkey_of(events) == Err::<HotkeyDescriptor, KeyFault>(KeyFault::NoMainKey)
            <==> classes_differ(leading_presses(events)) && main_keys(leading_presses(events))
            == 0,
        hotkey_of(events) matches Ok(descriptor) ==> {
            let keys = leading_presses(events);
            &&& descriptor.wf()
            &&& keys.contains(descriptor.vk)
            &&& forall|class: Modifier| descriptor.holds(class) == has_class(keys, class)
        },
{
    lemma_chord_reads(Chord::empty(), events);
    if classes_differ(leading_presses(events)) && main_keys(leading_presses(events)) <= 1 {
        assert forall|class: Modifier| !Chord::empty().holds(class) by {}
        lemma_chord_accepts(Chord::empty(), events);
    }
    if let Ok(chord) = Chord::empty().add_presses(events) {
        assert forall|class: Modifier| !Chord::empty().holds(class) by {}
        if let Ok(descriptor) = chord.finish() {
            assert forall|class: Modifier| descriptor.holds(class) == chord.holds(class) by {}
        }
    }
}

/// Where the first `n` events are presses and a release or nothing
/// follows, their keys are the keys pressed before the first release.
proof fn lemma_leading_presses(events: Seq<KeyInput>, n: int)
    requires
        0 <= n <= events.len(),
        forall|i: int| 0 <= i < n ==> events[i] is KeyDown,
        n < events.len() ==> events[n] is KeyUp,
    ensures
        leading_presses(events) == events.take(n).map_values(|event: KeyInput| event.key()),
    decreases n,
{
    let keys = events.take(n).map_values(|event: KeyInput| event.key());
    if n == 0 {
        assert(keys =~= Seq::<u8>::empty());
    } else {
        let rest = events.drop_first();
        assert(rest.take(n - 1) =~= events.take(n).drop_first());
        assert forall|i: int| 0 <= i < n - 1 implies rest[i] is KeyDown by {
            assert(rest[i] == events[i + 1]);
        }
        lemma_leading_presses(rest, n - 1);
        assert(keys =~= seq![events[0].key()] + rest.take(n - 1).map_values(
            |event: KeyInput| event.key(),
        ));
    }
}

/// The keys that a combination presses before its first release are its
/// parts, in their order: a hotkey of a combination is read off all of
/// them.
pub proof fn lemma_combination_presses_parts(parts: Seq<(u8, bool)>)
    ensures
        leading_presses(combination_events(parts)) == parts.map_values(|part: (u8, bool)| part.0),
{
    lemma_leading_presses(combination_events(parts), parts.len() as int);
    let events = combination_events(parts);
    assert(events.take(parts.len() as int).map_values(|event: KeyInput| event.key())
        =~= parts.map_values(|part: (u8, bool)| part.0));
}

} // verus!
