//! What the windowing canvas reports about keys and mouse buttons.

use vstd::prelude::*;

verus! {

/// The state the canvas reports for a key or a mouse button.
#[derive(Clone, Copy, Debug, PartialEq, Eq, Structural)]
pub enum Action {
    /// The key or button is not held down.
    Release,
    /// The key or button is held down.
    Press,
}

/// A mouse button a camera gesture can be bound to.
#[derive(Clone, Copy, Debug, PartialEq, Eq, Structural)]
pub enum MouseButton {
    Button1,
    Button2,
    Button3,
    Button4,
}

/// A key a camera movement can be bound to.
#[derive(Clone, Copy, Debug, PartialEq, Eq, Structural)]
pub enum Key {
    Up,
    Down,
    Left,
    Right,
    W,
    A,
    S,
    D,
    Space,
    Return,
    Escape,
}

/// A snapshot of the canvas input state: which keys and which mouse buttons
/// are held down right now. The event loop owns the real canvas; before it
/// hands control to the camera it fills a snapshot, so the camera's answers
/// are a function of plain data.
pub struct InputState {
    /// The keys currently held down.
    pub keys_down: Vec<Key>,
    /// The mouse buttons currently held down.
    pub buttons_down: Vec<MouseButton>,
}

impl InputState {
    /// The state this snapshot reports for `key`.
    pub open spec fn spec_get_key(&self, key: Key) -> Action {
        if self.keys_down@.contains(key) {
            Action::Press
        } else {
            Action::Release
        }
    }

    /// The state this snapshot reports for `button`.
    pub open spec fn spec_get_mouse_button(&self, button: MouseButton) -> Action {
        if self.buttons_down@.contains(button) {
            Action::Press
        } else {
            Action::Release
        }
    }

    /// A snapshot with nothing held down.
    pub fn new() -> (r: InputState)
        ensures
            r.keys_down@ == Seq::<Key>::empty(),
            r.buttons_down@ == Seq::<MouseButton>::empty(),
    {
        InputState { keys_down: Vec::new(), buttons_down: Vec::new() }
    }

    /// Record that `key` is held down.
    pub fn press_key(&mut self, key: Key)
        ensures
            final(self).keys_down@ == old(self).keys_down@.push(key),
            final(self).buttons_down@ == old(self).buttons_down@,
    {
        self.keys_down.push(key);
    }

    /// Record that `button` is held down.
    pub fn press_mouse_button(&mut self, button: MouseButton)
        ensures
            final(self).keys_down@ == old(self).keys_down@,
            final(self).buttons_down@ == old(self).buttons_down@.push(button),
    {
        self.buttons_down.push(button);
    }

    /// The state of `key` in this snapshot.
    pub fn get_key(&self, key: Key) -> (r: Action)
        ensures
            r == self.spec_get_key(key),
    {
        let mut i: usize = 0;
        while i < self.keys_down.len()
            invariant
                i <= self.keys_down.len(),
                forall|j: int| 0 <= j < i ==> self.keys_down@[j] != key,
            decreases self.keys_down.len() - i,
        {
            if self.keys_down[i] == key {
                assert(self.keys_down@.contains(key));
                return Action::Press;
            }
            i += 1;
        }
        assert(!self.keys_down@.contains(key));
        Action::Release
    }

    /// The state of `button` in this snapshot.
    pub fn get_mouse_button(&self, button: MouseButton) -> (r: Action)
        ensures
            r == self.spec_get_mouse_button(button),
    {
        let mut i: usize = 0;
        while i < self.buttons_down.len()
            invariant
                i <= self.buttons_down.len(),
                forall|j: int| 0 <= j < i ==> self.buttons_down@[j] != button,
            decreases self.buttons_down.len() - i,
        {
            if self.buttons_down[i] == button {
                assert(self.buttons_down@.contains(button));
                return Action::Press;
            }
            i += 1;
        }
        assert(!self.buttons_down@.contains(button));
        Action::Release
    }
}

} // verus!
