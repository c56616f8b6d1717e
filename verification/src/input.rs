//! Edge-detecting keyboard state.
//!
//! A key is identified by an `i32`. The tracker is modelled by a map from the
//! keys seen so far to their three flags; a key that was never seen reads as
//! idle.

use std::collections::BTreeMap;
use vstd::prelude::*;

verus! {

broadcast use {vstd::std_specs::btree::group_btree_axioms, vstd::laws_cmp::group_laws_cmp};

/// The flags kept for one key.
#[derive(Clone, Copy, Debug, PartialEq, Eq, Structural)]
pub struct KeyState {
    /// The key is down.
    pub held: bool,
    /// The key went down in the current frame.
    pub pressed: bool,
    /// The key went up in the current frame.
    pub released: bool,
}

impl KeyState {
    /// The state of a key that was never touched.
    pub open spec fn idle() -> KeyState {
        KeyState { held: false, pressed: false, released: false }
    }

    /// The state after a key-down event: a key that was not held becomes
    /// held and pressed; a key that was held already is left as it is.
    pub open spec fn after_down(self) -> KeyState {
        if self.held {
            self
        } else {
            KeyState { held: true, pressed: true, released: self.released }
        }
    }

    /// The state after a key-up event.
    pub open spec fn after_up(self) -> KeyState {
        KeyState { held: false, pressed: self.pressed, released: true }
    }

    /// The state at the start of the next frame: the edges are gone, the
    /// level stays.
    pub open spec fn settled(self) -> KeyState {
        KeyState { held: self.held, pressed: false, released: false }
    }

    pub fn new() -> (state: KeyState)
        ensures
            state == KeyState::idle(),
    {
        KeyState { held: false, pressed: false, released: false }
    }
}

/// The flags of `key` in the model `m`.
pub open spec fn state_in(m: Map<i32, KeyState>, key: i32) -> KeyState {
    if m.contains_key(key) {
        m[key]
    } else {
        KeyState::idle()
    }
}

/// The model after a key-down event for `key`.
pub open spec fn key_down(m: Map<i32, KeyState>, key: i32) -> Map<i32, KeyState> {
    m.insert(key, state_in(m, key).after_down())
}

/// The model after a key-up event for `key`.
pub open spec fn key_up(m: Map<i32, KeyState>, key: i32) -> Map<i32, KeyState> {
    m.insert(key, state_in(m, key).after_up())
}

/// The model at the start of the next frame.
pub open spec fn frame_start(m: Map<i32, KeyState>) -> Map<i32, KeyState> {
    Map::new(|key: i32| m.contains_key(key), |key: i32| m[key].settled())
}

/// At the start of a frame the same keys are tracked, none of them is
/// pressed or released, and each is held exactly if it was held before.
pub proof fn lemma_frame_start(m: Map<i32, KeyState>, key: i32)
    ensures
        frame_start(m).dom() == m.dom(),
        state_in(frame_start(m), key) == state_in(m, key).settled(),
        !state_in(frame_start(m), key).pressed,
        !state_in(frame_start(m), key).released,
        state_in(frame_start(m), key).held == state_in(m, key).held,
{
    assert(frame_start(m).dom() =~= m.dom());
}

/// A key-down event for a key that is held changes the flags of no key: a
/// repeated event does not press the key again.
pub proof fn lemma_repeated_down(m: Map<i32, KeyState>, key: i32, other: i32)
    requires
        state_in(m, key).held,
    ensures
        state_in(key_down(m, key), other) == state_in(m, other),
{
}

/// A key-down event for a key that is not held presses it and holds it;
/// a key-up event releases it and holds it no longer. The flags of every
/// other key stay as they are.
pub proof fn lemma_key_edges(m: Map<i32, KeyState>, key: i32, other: i32)
    ensures
        state_in(key_down(m, key), key).held,
        !state_in(m, key).held ==> state_in(key_down(m, key), key).pressed,
        state_in(key_down(m, key), key).pressed == (state_in(m, key).pressed || !state_in(
            m,
            key,
        ).held),
        !state_in(key_up(m, key), key).held,
        state_in(key_up(m, key), key).released,
        other != key ==> state_in(key_down(m, key), other) == state_in(m, other),
        other != key ==> state_in(key_up(m, key), other) == state_in(m, other),
{
}

/// Whether `key` is among the first `count` keys of `seen`.
pub open spec fn among_first(seen: Seq<i32>, count: int, key: i32) -> bool {
    exists|j: int| 0 <= j < count && seen[j] == key
}

/// `state` as it is, or as the next frame finds it.
pub open spec fn settled_if(state: KeyState, settle: bool) -> KeyState {
    if settle {
        state.settled()
    } else {
        state
    }
}

/// Tracks, for every key seen so far, whether it is held and whether it was
/// pressed or released in the current frame.
pub struct Input {
    input_keys: BTreeMap<i32, KeyState>,
    /// The keys of `input_keys`, to walk them at the start of a frame.
    seen: Vec<i32>,
}

impl View for Input {
    type V = Map<i32, KeyState>;

    closed spec fn view(&self) -> Map<i32, KeyState> {
        self.input_keys@
    }
}

impl Input {
    /// The list of keys seen holds exactly the tracked keys.
    pub closed spec fn wf(&self) -> bool {
        forall|key: i32| self.input_keys@.contains_key(key) <==> self.seen@.contains(key)
    }

    /// The flags of `key`.
    pub open spec fn state_of(&self, key: i32) -> KeyState {
        state_in(self@, key)
    }

    pub fn new() -> (input: Input)
        ensures
            input.wf(),
            input@ == Map::<i32, KeyState>::empty(),
    {
        Input { input_keys: BTreeMap::new(), seen: Vec::new() }
    }

    fn state(&self, key: i32) -> (state: KeyState)
        ensures
            state == self.state_of(key),
    {
        match self.input_keys.get(&key) {
            Some(state) => *state,
            None => KeyState::new(),
        }
    }

    fn store(&mut self, key: i32, state: KeyState)
        requires
            old(self).wf(),
        ensures
            final(self).wf(),
            final(self)@ == old(self)@.insert(key, state),
    {
        let before = self.input_keys.insert(key, state);
        if before.is_none() {
            self.seen.push(key);
            proof {
                assert forall|k: i32| self.input_keys@.contains_key(k) <==> self.seen@.contains(
                    k,
                ) by {
                    if k == key {
                        assert(self.seen@[self.seen@.len() - 1] == key);
                    } else if old(self).seen@.contains(k) {
                        let j = choose|j: int|
                            0 <= j < old(self).seen@.len() && old(self).seen@[j] == k;
                        assert(self.seen@[j] == k);
                    } else if self.seen@.contains(k) {
                        let j = choose|j: int| 0 <= j < self.seen@.len() && self.seen@[j] == k;
                        assert(old(self).seen@[j] == k);
                    }
                }
            }
        }
    }

    /// Starts a frame: clears the pressed and released flags of every key
    /// and leaves the held flags as they are.
    pub fn begin_new_frame(&mut self)
        requires
            old(self).wf(),
        ensures
            final(self).wf(),
            final(self)@ == frame_start(old(self)@),
    {
        let mut i: usize = 0;
        while i < self.seen.len()
            invariant
                i <= self.seen.len(),
                self.wf(),
                self.seen@ == old(self).seen@,
                self.input_keys@.dom() == old(self).input_keys@.dom(),
                forall|key: i32| #[trigger]
                    self.input_keys@.contains_key(key) ==> self.input_keys@[key] == settled_if(
                        old(self).input_keys@[key],
                        among_first(self.seen@, i as int, key),
                    ),
            decreases self.seen.len() - i,
        {
            let key = self.seen[i];
            let ghost before = self.input_keys@;
            assert(self.seen@.contains(key));
            assert(before.contains_key(key));
            let state = self.state(key);
            self.input_keys.insert(
                key,
                KeyState { held: state.held, pressed: false, released: false },
            );
            proof {
                assert(self.input_keys@.dom() =~= before.dom());
                assert forall|k: i32| #[trigger]
                    self.input_keys@.contains_key(k) implies self.input_keys@[k] == settled_if(
                    old(self).input_keys@[k],
                    among_first(self.seen@, i + 1, k),
                ) by {
                    assert(before.contains_key(k));
                    if k == key {
                        assert(0 <= i < i + 1 && self.seen@[i as int] == k);
                    } else {
                        assert(self.input_keys@[k] == before[k]);
                        if among_first(self.seen@, i + 1, k) {
                            let j = choose|j: int| 0 <= j < i + 1 && self.seen@[j] == k;
                            assert(0 <= j < i && self.seen@[j] == k);
                        }
                        if among_first(self.seen@, i as int, k) {
                            let j = choose|j: int| 0 <= j < i && self.seen@[j] == k;
                            assert(0 <= j < i + 1 && self.seen@[j] == k);
                        }
                    }
                }
            }
            i += 1;
        }
        proof {
            assert forall|k: i32| self.input_keys@.contains_key(k) implies self.input_keys@[k]
                == old(self).input_keys@[k].settled() by {
                assert(self.seen@.contains(k));
                let j = choose|j: int| 0 <= j < self.seen@.len() && self.seen@[j] == k;
                assert(0 <= j < i && self.seen@[j] == k);
            }
            assert(self.input_keys@ =~= frame_start(old(self).input_keys@));
        }
    }

    /// Records a key-down event. A key that is already held is left
    /// untouched, so a repeated event does not press it again.
    pub fn on_key_down(&mut self, key: i32)
        requires
            old(self).wf(),
        ensures
            final(self).wf(),
            final(self)@ == key_down(old(self)@, key),
    {
        let before = self.state(key);
        let after = if before.held {
            before
        } else {
            KeyState { held: true, pressed: true, released: before.released }
        };
        self.store(key, after);
    }

    /// Records a key-up event.
    pub fn on_key_up(&mut self, key: i32)
        requires
            old(self).wf(),
        ensures
            final(self).wf(),
            final(self)@ == key_up(old(self)@, key),
    {
        let before = self.state(key);
        self.store(key, KeyState { held: false, pressed: before.pressed, released: true });
    }

    /// Whether `key` is down.
    pub fn key_held(&self, key: i32) -> (held: bool)
        ensures
            held == self.state_of(key).held,
    {
        self.state(key).held
    }

    /// Whether `key` went down in the current frame.
    pub fn key_pressed(&self, key: i32) -> (pressed: bool)
        ensures
            pressed == self.state_of(key).pressed,
    {
        self.state(key).pressed
    }

    /// Whether `key` went up in the current frame.
    pub fn key_released(&self, key: i32) -> (released: bool)
        ensures
            released == self.state_of(key).released,
    {
        self.state(key).released
    }
}

} // verus!
