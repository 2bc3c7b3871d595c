//! Which of the steering keys are held down.

use vstd::prelude::*;

verus! {

/// The keys the game tells apart; every other key is `Other`.
#[derive(Clone, Copy, Debug, PartialEq, Eq, Structural)]
pub enum Key {
    W,
    A,
    S,
    D,
    P,
    Escape,
    Other,
}

/// Pressed state of the four steering keys: `W` up, `S` down, `A` left and
/// `D` right.
#[derive(Clone, Copy, Debug, PartialEq, Eq, Structural)]
pub struct KeyMap {
    pub w: bool,
    pub a: bool,
    pub s: bool,
    pub d: bool,
}

impl KeyMap {
    /// Whether `key` is one of the four steering keys.
    pub open spec fn tracks(key: Key) -> bool {
        key == Key::W || key == Key::A || key == Key::S || key == Key::D
    }

    /// Whether `key` is held down. A key that is not tracked never is.
    pub open spec fn pressed(self, key: Key) -> bool {
        match key {
            Key::W => self.w,
            Key::A => self.a,
            Key::S => self.s,
            Key::D => self.d,
            _ => false,
        }
    }

    /// The map with `key` set to `state`; the same map if `key` is not
    /// tracked.
    pub open spec fn with_key(self, key: Key, state: bool) -> KeyMap {
        match key {
            Key::W => KeyMap { w: state, ..self },
            Key::A => KeyMap { a: state, ..self },
            Key::S => KeyMap { s: state, ..self },
            Key::D => KeyMap { d: state, ..self },
            _ => self,
        }
    }

    /// A map in which no key is held down.
    pub fn new() -> (m: KeyMap)
        ensures
            !m.w && !m.a && !m.s && !m.d,
    {
        KeyMap { w: false, a: false, s: false, d: false }
    }

    fn set(&mut self, key: &Key, state: bool)
        ensures
            *final(self) == old(self).with_key(*key, state),
    {
        match key {
            Key::W => {
                self.w = state;
            },
            Key::A => {
                self.a = state;
            },
            Key::S => {
                self.s = state;
            },
            Key::D => {
                self.d = state;
            },
            _ => {},
        }
    }
}

/// Records that `key` went down. Keys that are not tracked are ignored.
pub fn on_key_down(map: &mut KeyMap, key: &Key)
    ensures
        *final(map) == old(map).with_key(*key, true),
{
    map.set(key, true);
}

/// Records that `key` was released. Keys that are not tracked are ignored.
pub fn on_key_up(map: &mut KeyMap, key: &Key)
    ensures
        *final(map) == old(map).with_key(*key, false),
{
    map.set(key, false);
}

/// Pressing or releasing a key changes the state of that key and of no
/// other.
pub proof fn lemma_with_key(m: KeyMap, key: Key, state: bool, other: Key)
    ensures
        m.with_key(key, state).pressed(other) == if other == key && KeyMap::tracks(key) {
            state
        } else {
            m.pressed(other)
        },
{
}

} // verus!
