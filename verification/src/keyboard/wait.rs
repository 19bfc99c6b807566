//! Waiting until the keys of a sequence are released: the set of keys to
//! watch, and the decisions of the polling loop.

use crate::keyboard::events::KeyInput;
use std::collections::HashSet;
use vstd::prelude::*;

verus! {

/// The keys that `events` press or release.
pub open spec fn event_keys(events: Seq<KeyInput>) -> Set<u8> {
    Set::new(|vk: u8| exists|i: int| 0 <= i < events.len() && #[trigger] events[i].key() == vk)
}

/// The set of the keys that `events` press or release.
pub fn watch_set(events: &[KeyInput]) -> (keys: HashSet<u8>)
    ensures
        keys@ == event_keys(events@),
{
    let mut keys: HashSet<u8> = HashSet::new();
    for i in 0..events.len()
        invariant
            keys@ == event_keys(events@.take(i as int)),
    {
        let vk = match events[i] {
            KeyInput::KeyDown(vk) => vk,
            KeyInput::KeyUp(vk) => vk,
        };
        keys.insert(vk);
        proof {
            let before = events@.take(i as int);
            let now = events@.take(i + 1);
            assert(now[i as int].key() == vk);
            assert forall|k: u8| event_keys(now).contains(k) implies event_keys(before).insert(
                vk,
            ).contains(k) by {
                let j = choose|j: int| 0 <= j < now.len() && #[trigger] now[j].key() == k;
                if j < i {
                    assert(before[j].key() == k);
                }
            }
            assert forall|k: u8| event_keys(before).contains(k) implies event_keys(now).contains(
                k,
            ) by {
                let j = choose|j: int| 0 <= j < before.len() && #[trigger] before[j].key() == k;
                assert(now[j].key() == k);
            }
            assert(keys@ =~= event_keys(now));
        }
    }
    assert(events@.take(events@.len() as int) =~= events@);
    keys
}

/// The number of sleeps, of one interval each, after which a wait gives up.
pub const WAIT_LIMIT: u32 = 30000;

/// What the polling loop does next.
#[derive(Clone, Copy, Debug, PartialEq, Eq, Structural)]
pub enum WaitAction {
    /// Ask whether this key is released, and report the answer.
    Poll(u8),
    /// Sleep for one interval, and report it.
    Sleep,
    /// Every key has been seen released.
    Done,
    /// The keys were not all released in time.
    TimedOut,
}

/// The progress of a wait for keys to be released: the keys are watched
/// one after the other, each until it is seen released, and the sleeps
/// between polls are counted over all of them.
pub struct KeyWait {
    keys: Vec<u8>,
    next: usize,
    sleeps: u32,
}

impl KeyWait {
    /// The keys to watch, in the order in which they are watched.
    pub closed spec fn keys(&self) -> Seq<u8> {
        self.keys@
    }

    /// How many of the keys have been seen released.
    pub closed spec fn released(&self) -> nat {
        self.next as nat
    }

    /// How many sleeps have been counted, one more than the limit at most.
    pub closed spec fn sleeps(&self) -> nat {
        self.sleeps as nat
    }

    /// The index of the key watched never passes the keys, nor the count
    /// of sleeps the limit by more than one.
    #[verifier::type_invariant]
    closed spec fn inv(&self) -> bool {
        self.next <= self.keys@.len() && self.sleeps <= WAIT_LIMIT + 1
    }

    /// What is due in this state: the poll of the first key not yet seen
    /// released, or the end of the wait.
    pub open spec fn due(&self) -> WaitAction {
        if self.sleeps() > WAIT_LIMIT {
            WaitAction::TimedOut
        } else if self.released() < self.keys().len() {
            WaitAction::Poll(self.keys()[self.released() as int])
        } else {
            WaitAction::Done
        }
    }

    /// A wait for `keys`, none seen released and no sleep counted.
    pub fn new(keys: Vec<u8>) -> (wait: KeyWait)
        ensures
            wait.keys() == keys@,
            wait.released() == 0,
            wait.sleeps() == 0,
    {
        KeyWait { keys, next: 0, sleeps: 0 }
    }

    /// The action with which the loop begins, or goes on. A wait never
    /// counts more than one sleep past the limit, and never sees more keys
    /// released than it watches.
    pub fn begin(&self) -> (action: WaitAction)
        ensures
            action == self.due(),
            self.sleeps() <= WAIT_LIMIT + 1,
            self.released() <= self.keys().len(),
    {
        proof {
            use_type_invariant(self);
        }
        if self.sleeps > WAIT_LIMIT {
            WaitAction::TimedOut
        } else if self.next < self.keys.len() {
            WaitAction::Poll(self.keys[self.next])
        } else {
            WaitAction::Done
        }
    }

    /// Takes the answer to a poll of the key that is due: a released key is
    /// done with, and the next one is due; for a key still down a sleep is
    /// asked for. Where no poll is due, nothing changes.
    pub fn polled(&mut self, key_released: bool) -> (action: WaitAction)
        ensures
            final(self).keys() == old(self).keys(),
            final(self).sleeps() == old(self).sleeps(),
            final(self).released() == if old(self).due() is Poll && key_released {
                old(self).released() + 1
            } else {
                old(self).released()
            },
            action == if old(self).due() is Poll && !key_released {
                WaitAction::Sleep
            } else {
                final(self).due()
            },
    {
        proof {
            use_type_invariant(&*self);
        }
        if self.sleeps <= WAIT_LIMIT && self.next < self.keys.len() {
            if !key_released {
                return WaitAction::Sleep;
            }
            self.next = self.next + 1;
        }
        self.begin()
    }

    /// Counts a sleep; the wait times out when the count has passed the
    /// limit, and else polls again.
    pub fn slept(&mut self) -> (action: WaitAction)
        ensures
            final(self).keys() == old(self).keys(),
            final(self).released() == old(self).released(),
            final(self).sleeps() == if old(self).sleeps() <= WAIT_LIMIT {
                old(self).sleeps() + 1
            } else {
                old(self).sleeps()
            },
            action == final(self).due(),
    {
        proof {
            use_type_invariant(&*self);
        }
        if self.sleeps <= WAIT_LIMIT {
            self.sleeps = self.sleeps + 1;
        }
        self.begin()
    }
}

} // verus!
