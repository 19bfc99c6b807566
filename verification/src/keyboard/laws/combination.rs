//! Laws of combinations such as `<ctrl+c>`: they are balanced, properly
//! nested, and leave no modifier held that they name.

use crate::keyboard::error::KeyFault;
use crate::keyboard::events::{KeyInput, KeyState};
use crate::keyboard::grammar::{all_plus, combination_events, group_events};
use crate::keyboard::keys::{modifier_of, Modifier};
use vstd::prelude::*;

verus! {

/// How many of `events` are presses.
pub open spec fn presses(events: Seq<KeyInput>) -> nat
    decreases events.len(),
{
    if events.len() == 0 {
        0
    } else {
        presses(events.drop_last()) + if events.last() is KeyDown {
            1nat
        } else {
            0nat
        }
    }
}

/// How many of `events` are releases.
pub open spec fn releases(events: Seq<KeyInput>) -> nat
    decreases events.len(),
{
    if events.len() == 0 {
        0
    } else {
        releases(events.drop_last()) + if events.last() is KeyUp {
            1nat
        } else {
            0nat
        }
    }
}

/// The first `n` events of a combination are presses.
proof fn lemma_combination_head(parts: Seq<(u8, bool)>, n: int)
    requires
        0 <= n <= parts.len(),
    ensures
        presses(combination_events(parts).take(n)) == n,
        releases(combination_events(parts).take(n)) == 0,
    decreases n,
{
    let events = combination_events(parts);
    if n > 0 {
        lemma_combination_head(parts, n - 1);
        assert(events.take(n).drop_last() =~= events.take(n - 1));
    }
}

/// The events of a combination after its presses are releases.
proof fn lemma_combination_tail(parts: Seq<(u8, bool)>, n: int)
    requires
        0 <= n <= parts.len(),
    ensures
        presses(combination_events(parts).take(parts.len() + n)) == parts.len(),
        releases(combination_events(parts).take(parts.len() + n)) == n,
    decreases n,
{
    let events = combination_events(parts);
    if n == 0 {
        lemma_combination_head(parts, parts.len() as int);
    } else {
        lemma_combination_tail(parts, n - 1);
        assert(events.take(parts.len() + n).drop_last() =~= events.take(parts.len() + n - 1));
    }
}

/// Where the release of part `i` stands among the events of a combination
/// of `n` parts.
pub open spec fn release_index(n: nat, i: int) -> int {
    2 * n - 1 - i
}

/// A combination is balanced and properly nested: it has as many presses
/// as releases, one of each for every part; part `i` is pressed by event
/// `i` and released by a later event; and of two parts, the one pressed
/// later is released earlier.
pub proof fn lemma_combination_balanced(parts: Seq<(u8, bool)>)
    ensures
        combination_events(parts).len() == 2 * parts.len(),
        presses(combination_events(parts)) == parts.len(),
        releases(combination_events(parts)) == parts.len(),
        forall|i: int|
            #![trigger parts[i]]
            0 <= i < parts.len() ==> {
                &&& combination_events(parts)[i] == KeyInput::KeyDown(parts[i].0)
                &&& combination_events(parts)[release_index(parts.len(), i)] == KeyInput::KeyUp(
                    parts[i].0,
                )
                &&& i < release_index(parts.len(), i) < 2 * parts.len()
            },
        forall|i: int, j: int|
            0 <= i < j < parts.len() ==> #[trigger] release_index(parts.len(), j)
                < #[trigger] release_index(parts.len(), i),
{
    let events = combination_events(parts);
    lemma_combination_tail(parts, parts.len() as int);
    assert(events.take(parts.len() + parts.len() as int) =~= events);
}

/// Some part among those from `from` up to, but without, `to` is a
/// modifier of the class `class`.
pub open spec fn names_class(parts: Seq<(u8, bool)>, from: int, to: int, class: Modifier) -> bool {
    exists|i: int| from <= i < to && modifier_of(#[trigger] parts[i].0) == Some(class)
}

/// While a combination presses its first `k` parts, the slot of a class
/// that none of them belongs to stays as it was.
proof fn lemma_combination_presses(held: KeyState, parts: Seq<(u8, bool)>, k: int, class: Modifier)
    requires
        0 <= k <= parts.len(),
        !names_class(parts, 0, k, class),
    ensures
        held.track_all(combination_events(parts).take(k)).slot(class) == held.slot(class),
    decreases k,
{
    let events = combination_events(parts);
    if k > 0 {
        assert(events.take(k).drop_last() =~= events.take(k - 1));
        assert(modifier_of(parts[k - 1].0) != Some(class));
        lemma_combination_presses(held, parts, k - 1, class);
    }
}

/// Once a combination has released its last `k` parts, the slot of a
/// class that one of them belongs to is empty, and the slot of a class
/// that no part belongs to is as it was before the combination.
proof fn lemma_combination_releases(held: KeyState, parts: Seq<(u8, bool)>, k: int, class: Modifier)
    requires
        0 <= k <= parts.len(),
    ensures
        names_class(parts, parts.len() - k, parts.len() as int, class) ==> held.track_all(
            combination_events(parts).take(parts.len() + k),
        ).slot(class) is None,
        !names_class(parts, 0, parts.len() as int, class) ==> held.track_all(
            combination_events(parts).take(parts.len() + k),
        ).slot(class) == held.slot(class),
    decreases k,
{
    let n = parts.len() as int;
    let events = combination_events(parts);
    if k == 0 {
        if !names_class(parts, 0, n, class) {
            lemma_combination_presses(held, parts, n, class);
        }
    } else {
        assert(events.take(n + k).drop_last() =~= events.take(n + k - 1));
        assert(events[n + k - 1] == KeyInput::KeyUp(parts[n - k].0));
        lemma_combination_releases(held, parts, k - 1, class);
        if names_class(parts, n - k, n, class) {
            let i = choose|i: int| n - k <= i < n && modifier_of(#[trigger] parts[i].0) == Some(class);
            if i != n - k {
                assert(names_class(parts, n - (k - 1), n, class));
            }
        }
        if !names_class(parts, 0, n, class) {
            assert(modifier_of(parts[n - k].0) != Some(class));
        }
    }
}

/// A combination leaves no modifier held that it names: after its events,
/// the slot of each class that a part belongs to is empty, whatever was
/// held before, and the slots of the other classes are as they were.
pub proof fn lemma_combination_state(held: KeyState, parts: Seq<(u8, bool)>, class: Modifier)
    ensures
        held.track_all(combination_events(parts)).slot(class) == if names_class(
            parts,
            0,
            parts.len() as int,
            class,
        ) {
            None
        } else {
            held.slot(class)
        },
{
    let events = combination_events(parts);
    lemma_combination_releases(held, parts, parts.len() as int, class);
    assert(events.take(parts.len() + parts.len() as int) =~= events);
}

/// A closed group with one operator less than parts, all of them `+`, is a
/// combination, whatever is held; with a `-` among them it is refused.
pub proof fn lemma_combination_group(held: KeyState, parts: Seq<(u8, bool)>, seps: Seq<bool>)
    requires
        seps.len() > 0,
        parts.len() == seps.len() + 1,
    ensures
        all_plus(seps) ==> group_events(held, parts, seps) == Ok::<Seq<KeyInput>, KeyFault>(
            combination_events(parts),
        ),
        !all_plus(seps) ==> group_events(held, parts, seps) == Err::<Seq<KeyInput>, KeyFault>(
            KeyFault::MixedOperatorsInCombination,
        ),
{
}

} // verus!
