//! Keys, the binding of keys to actions, and the key facts of one frame.

use vstd::prelude::*;

verus! {

/// A key of the keyboard.
#[derive(Clone, Copy, Debug, PartialEq, Eq, Structural)]
pub enum KeyCode {
    A,
    B,
    C,
    D,
    E,
    F,
    G,
    H,
    I,
    J,
    K,
    L,
    M,
    N,
    O,
    P,
    Q,
    R,
    S,
    T,
    U,
    V,
    W,
    X,
    Y,
    Z,
    Up,
    Down,
    Left,
    Right,
    Space,
    Return,
    Escape,
}

/// Which key stands for which action.
#[derive(Clone, Copy, Debug, PartialEq, Eq, Structural)]
pub struct KeyBindings {
    pub up: KeyCode,
    pub down: KeyCode,
    pub left: KeyCode,
    pub right: KeyCode,
    pub interact: KeyCode,
    pub fire: KeyCode,
    pub hookshot: KeyCode,
}

impl Default for KeyBindings {
    fn default() -> (bindings: Self)
        ensures
            bindings == (KeyBindings {
                up: KeyCode::W,
                down: KeyCode::S,
                left: KeyCode::A,
                right: KeyCode::D,
                interact: KeyCode::I,
                fire: KeyCode::F,
                hookshot: KeyCode::H,
            }),
    {
        Self {
            up: KeyCode::W,
            down: KeyCode::S,
            left: KeyCode::A,
            right: KeyCode::D,
            interact: KeyCode::I,
            fire: KeyCode::F,
            hookshot: KeyCode::H,
        }
    }
}

/// What the bound keys report in one frame: the four direction keys say
/// whether they are held, the three action keys whether they went down in
/// this very frame.
#[derive(Clone, Copy, Debug, PartialEq, Eq, Structural)]
pub struct Controls {
    pub up: bool,
    pub down: bool,
    pub left: bool,
    pub right: bool,
    pub interact: bool,
    pub fire: bool,
    pub hookshot: bool,
}

impl Controls {
    /// The frame in which no bound key is held or pressed.
    pub open spec fn idle() -> Controls {
        Controls {
            up: false,
            down: false,
            left: false,
            right: false,
            interact: false,
            fire: false,
            hookshot: false,
        }
    }

    /// A frame without any bound key.
    pub fn none() -> (controls: Self)
        ensures
            controls == Controls::idle(),
    {
        Controls {
            up: false,
            down: false,
            left: false,
            right: false,
            interact: false,
            fire: false,
            hookshot: false,
        }
    }

    /// The key of the direction that is held, the first of up, down, left,
    /// right where several are.
    pub open spec fn active_key(self, bindings: KeyBindings) -> Option<KeyCode> {
        if self.up {
            Some(bindings.up)
        } else if self.down {
            Some(bindings.down)
        } else if self.left {
            Some(bindings.left)
        } else if self.right {
            Some(bindings.right)
        } else {
            None
        }
    }

    /// Picks the held direction key by the fixed priority up, down, left, right.
    pub fn held_key(&self, bindings: &KeyBindings) -> (key: Option<KeyCode>)
        ensures
            key == self.active_key(*bindings),
    {
        if self.up {
            Some(bindings.up)
        } else if self.down {
            Some(bindings.down)
        } else if self.left {
            Some(bindings.left)
        } else if self.right {
            Some(bindings.right)
        } else {
            None
        }
    }
}

} // verus!
