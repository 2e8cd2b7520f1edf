//! 16-key input device: per-key pressed/released state written by the host
//! between frames and queried by the SKP, SKNP and LD Vx,K instructions.

use vstd::prelude::*;

verus! {

/// Number of keys on the keypad; key identities are exactly `0..16`.
pub const MAX_KEYS: usize = 16;

/// Identifies one of the 16 keys.
#[derive(Clone, Copy, Debug, Default)]
pub struct Key(usize);

impl Key {
    /// The key's ordinal.
    pub closed spec fn view(&self) -> int {
        self.0 as int
    }

    /// Key identities lie in `0..16`.
    pub open spec fn wf(&self) -> bool {
        0 <= self@ < MAX_KEYS
    }

    /// Creates the key with ordinal `val`; the key space is exactly `0..16`.
    pub fn new(val: usize) -> (k: Key)
        requires
            val < MAX_KEYS,
        ensures
            k.wf(),
            k@ == val,
    {
        Key(val)
    }

    /// The key's ordinal as a byte.
    pub fn ordinal(&self) -> (r: u8)
        requires
            self.wf(),
        ensures
            r as int == self@,
    {
        self.0 as u8
    }
}

/// Pressed/released state of one key.
#[derive(Clone, Copy, Debug, PartialEq, Eq, Structural)]
pub enum KeyState {
    Released,
    Pressed,
}

impl KeyState {
    /// Whether the state is pressed.
    pub fn is_pressed(self) -> (r: bool)
        ensures
            r == (self is Pressed),
    {
        match self {
            KeyState::Released => false,
            KeyState::Pressed => true,
        }
    }
}

/// Whether any key in the state vector `s` is pressed.
pub open spec fn has_pressed(s: Seq<KeyState>) -> bool {
    exists|k: int| 0 <= k < MAX_KEYS && s[k] is Pressed
}

/// Whether `k` is the pressed key with the lowest ordinal in `s`.
pub open spec fn is_first_pressed(s: Seq<KeyState>, k: int) -> bool {
    0 <= k < MAX_KEYS && s[k] is Pressed && forall|j: int| 0 <= j < k ==> s[j] is Released
}

/// Boolean state vector of the 16 keys.
pub struct Keyboard {
    key_states: Vec<KeyState>,
}

impl Keyboard {
    /// The state of each key, by ordinal.
    pub closed spec fn view(&self) -> Seq<KeyState> {
        self.key_states@
    }

    /// There is exactly one state slot per key.
    pub closed spec fn wf(&self) -> bool {
        self@.len() == MAX_KEYS
    }

    /// Creates a keyboard with every key released.
    pub fn new() -> (kb: Keyboard)
        ensures
            kb.wf(),
            forall|k: int| 0 <= k < MAX_KEYS ==> kb@[k] is Released,
    {
        Keyboard { key_states: vec![KeyState::Released; 16] }
    }

    /// The current state of `key`.
    pub fn key_state(&self, key: Key) -> (r: KeyState)
        requires
            self.wf(),
            key.wf(),
        ensures
            r == self@[key@],
    {
        self.key_states[key.0]
    }

    /// Sets the state of `key`; the other keys keep theirs.
    pub fn set_key_state(&mut self, key: Key, state: KeyState)
        requires
            old(self).wf(),
            key.wf(),
        ensures
            final(self).wf(),
            final(self)@ == old(self)@.update(key@, state),
    {
        self.key_states.set(key.0, state);
    }

    /// The pressed key with the lowest ordinal, if any key is pressed.
    pub fn first_pressed_key(&self) -> (r: Option<Key>)
        requires
            self.wf(),
        ensures
            match r {
                Some(k) => k.wf() && self@[k@] is Pressed && forall|j: int|
                    0 <= j < k@ ==> self@[j] is Released,
                None => forall|j: int| 0 <= j < MAX_KEYS ==> self@[j] is Released,
            },
    {
        let mut i: usize = 0;
        while i < MAX_KEYS
            invariant
                self.wf(),
                i <= MAX_KEYS,
                forall|j: int| 0 <= j < i ==> self@[j] is Released,
            decreases MAX_KEYS - i,
        {
            if self.key_states[i].is_pressed() {
                return Some(Key(i));
            }
            i = i + 1;
        }
        None
    }

    /// All 16 keys in ascending ordinal order.
    pub fn keys() -> (r: Vec<Key>)
        ensures
            r@.len() == MAX_KEYS,
            forall|i: int| 0 <= i < MAX_KEYS ==> (#[trigger] r@[i]).wf() && r@[i]@ == i,
    {
        let mut v: Vec<Key> = Vec::new();
        let mut i: usize = 0;
        while i < MAX_KEYS
            invariant
                i <= MAX_KEYS,
                v@.len() == i,
                forall|j: int| 0 <= j < i ==> (#[trigger] v@[j]).wf() && v@[j]@ == j,
            decreases MAX_KEYS - i,
        {
            v.push(Key(i));
            i = i + 1;
        }
        v
    }
}

} // verus!
