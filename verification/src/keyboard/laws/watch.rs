//! Laws of the set of keys to watch: it depends on the events alone, not
//! on their order.

use crate::keyboard::events::KeyInput;
use crate::keyboard::wait::event_keys;
use vstd::prelude::*;

verus! {

/// The keys to watch do not depend on the order of the events: two
/// sequences with the same events, each as often in the one as in the
/// other, have the same keys.
pub proof fn lemma_event_keys_permutation(a: Seq<KeyInput>, b: Seq<KeyInput>)
    requires
        a.to_multiset() == b.to_multiset(),
    ensures
        event_keys(a) == event_keys(b),
{
    a.to_multiset_ensures();
    b.to_multiset_ensures();
    assert forall|vk: u8| event_keys(a).contains(vk) implies event_keys(b).contains(vk) by {
        let i = choose|i: int| 0 <= i < a.len() && #[trigger] a[i].key() == vk;
        assert(a.contains(a[i]));
        assert(b.to_multiset().count(a[i]) > 0);
        assert(b.contains(a[i]));
        let j = choose|j: int| 0 <= j < b.len() && b[j] == a[i];
        assert(b[j].key() == vk);
    }
    assert forall|vk: u8| event_keys(b).contains(vk) implies event_keys(a).contains(vk) by {
        let i = choose|i: int| 0 <= i < b.len() && #[trigger] b[i].key() == vk;
        assert(b.contains(b[i]));
        assert(a.to_multiset().count(b[i]) > 0);
        assert(a.contains(b[i]));
        let j = choose|j: int| 0 <= j < a.len() && a[j] == b[i];
        assert(a[j].key() == vk);
    }
    assert(event_keys(a) =~= event_keys(b));
}

/// The keys to watch are those of the presses and those of the releases:
/// the keys of two sequences joined are the keys of the one and of the
/// other.
pub proof fn lemma_event_keys_concat(a: Seq<KeyInput>, b: Seq<KeyInput>)
    ensures
        event_keys(a + b) == event_keys(a).union(event_keys(b)),
{
    let ab = a + b;
    assert forall|vk: u8| event_keys(ab).contains(vk) implies event_keys(a).union(
        event_keys(b),
    ).contains(vk) by {
        let i = choose|i: int| 0 <= i < ab.len() && #[trigger] ab[i].key() == vk;
        if i < a.len() {
            assert(a[i].key() == vk);
        } else {
            assert(b[i - a.len()].key() == vk);
        }
    }
    assert forall|vk: u8| event_keys(a).union(event_keys(b)).contains(vk) implies event_keys(
        ab,
    ).contains(vk) by {
        if event_keys(a).contains(vk) {
            let i = choose|i: int| 0 <= i < a.len() && #[trigger] a[i].key() == vk;
            assert(ab[i].key() == vk);
        } else {
            let i = choose|i: int| 0 <= i < b.len() && #[trigger] b[i].key() == vk;
            assert(ab[a.len() + i].key() == vk);
        }
    }
    assert(event_keys(ab) =~= event_keys(a).union(event_keys(b)));
}

} // verus!
