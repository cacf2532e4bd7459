//! Physical keys and the modifier mask.

use vstd::prelude::*;

verus! {

/// A key identified by its position on the keyboard.
///
/// The keys that the input state machine tells apart are named; every other key
/// travels as `Other` with the scan code the host reported for it.
#[derive(Clone, Copy, Debug, PartialEq, Eq, Structural, Hash)]
pub enum KeyCode {
    KeyA,
    Period,
    ArrowUp,
    ArrowDown,
    ArrowLeft,
    ArrowRight,
    ShiftLeft,
    ShiftRight,
    ControlLeft,
    ControlRight,
    AltLeft,
    AltRight,
    SuperLeft,
    SuperRight,
    Other(u32),
}

/// Whether a key went down or came up.
#[derive(Clone, Copy, Debug, PartialEq, Eq, Structural, Hash)]
pub enum ElementState {
    Pressed,
    Released,
}

/// One of the four logical modifiers; each has a left and a right physical key.
#[derive(Clone, Copy, Debug, PartialEq, Eq, Structural, Hash)]
pub enum Modifier {
    Shift,
    Control,
    Alt,
    Super,
}

/// The set of logical modifiers that are in effect.
#[derive(Clone, Copy, Debug, PartialEq, Eq, Structural, Hash)]
pub struct ModifiersState {
    pub shift: bool,
    pub control: bool,
    pub alt: bool,
    pub super_key: bool,
}

impl KeyCode {
    /// The logical modifier that this key belongs to, if it is a modifier key.
    pub open spec fn spec_family(self) -> Option<Modifier> {
        match self {
            KeyCode::ShiftLeft | KeyCode::ShiftRight => Some(Modifier::Shift),
            KeyCode::ControlLeft | KeyCode::ControlRight => Some(Modifier::Control),
            KeyCode::AltLeft | KeyCode::AltRight => Some(Modifier::Alt),
            KeyCode::SuperLeft | KeyCode::SuperRight => Some(Modifier::Super),
            _ => None,
        }
    }

    /// Whether this is one of the eight physical modifier keys.
    pub open spec fn spec_is_modifier(self) -> bool {
        self.spec_family() is Some
    }

    /// Whether this is one of the four arrow keys.
    pub open spec fn spec_is_arrow(self) -> bool {
        self == KeyCode::ArrowUp || self == KeyCode::ArrowDown || self == KeyCode::ArrowLeft
            || self == KeyCode::ArrowRight
    }

    /// The key that the host names by `scancode`.
    pub open spec fn spec_from_scancode(scancode: u32) -> KeyCode {
        if scancode == 0x00 {
            KeyCode::KeyA
        } else if scancode == 0x2F {
            KeyCode::Period
        } else if scancode == 0x36 {
            KeyCode::SuperRight
        } else if scancode == 0x37 {
            KeyCode::SuperLeft
        } else if scancode == 0x38 {
            KeyCode::ShiftLeft
        } else if scancode == 0x3A {
            KeyCode::AltLeft
        } else if scancode == 0x3B {
            KeyCode::ControlLeft
        } else if scancode == 0x3C {
            KeyCode::ShiftRight
        } else if scancode == 0x3D {
            KeyCode::AltRight
        } else if scancode == 0x3E {
            KeyCode::ControlRight
        } else if scancode == 0x7B {
            KeyCode::ArrowLeft
        } else if scancode == 0x7C {
            KeyCode::ArrowRight
        } else if scancode == 0x7D {
            KeyCode::ArrowDown
        } else if scancode == 0x7E {
            KeyCode::ArrowUp
        } else {
            KeyCode::Other(scancode)
        }
    }

    /// The key that the host names by `scancode`. A key that the state machine
    /// does not tell from others keeps its scan code.
    pub fn from_scancode(scancode: u32) -> (key: KeyCode)
        ensures
            key == KeyCode::spec_from_scancode(scancode),
    {
        match scancode {
            0x00 => KeyCode::KeyA,
            0x2F => KeyCode::Period,
            0x36 => KeyCode::SuperRight,
            0x37 => KeyCode::SuperLeft,
            0x38 => KeyCode::ShiftLeft,
            0x3A => KeyCode::AltLeft,
            0x3B => KeyCode::ControlLeft,
            0x3C => KeyCode::ShiftRight,
            0x3D => KeyCode::AltRight,
            0x3E => KeyCode::ControlRight,
            0x7B => KeyCode::ArrowLeft,
            0x7C => KeyCode::ArrowRight,
            0x7D => KeyCode::ArrowDown,
            0x7E => KeyCode::ArrowUp,
            _ => KeyCode::Other(scancode),
        }
    }

    /// The logical modifier that this key belongs to, if it is a modifier key.
    pub fn family(self) -> (family: Option<Modifier>)
        ensures
            family == self.spec_family(),
    {
        match self {
            KeyCode::ShiftLeft | KeyCode::ShiftRight => Some(Modifier::Shift),
            KeyCode::ControlLeft | KeyCode::ControlRight => Some(Modifier::Control),
            KeyCode::AltLeft | KeyCode::AltRight => Some(Modifier::Alt),
            KeyCode::SuperLeft | KeyCode::SuperRight => Some(Modifier::Super),
            _ => None,
        }
    }
}

/// Whether `keycode` is one of the four arrow keys, which move inside a
/// composition window without ending the session.
pub fn is_arrow_key(keycode: KeyCode) -> (arrow: bool)
    ensures
        arrow == keycode.spec_is_arrow(),
{
    match keycode {
        KeyCode::ArrowUp | KeyCode::ArrowDown | KeyCode::ArrowLeft | KeyCode::ArrowRight => true,
        _ => false,
    }
}

impl ModifiersState {
    /// The mask with no modifier in effect.
    pub open spec fn spec_empty() -> ModifiersState {
        ModifiersState { shift: false, control: false, alt: false, super_key: false }
    }

    /// Whether `modifier` is in effect in this mask.
    pub open spec fn spec_contains(self, modifier: Modifier) -> bool {
        match modifier {
            Modifier::Shift => self.shift,
            Modifier::Control => self.control,
            Modifier::Alt => self.alt,
            Modifier::Super => self.super_key,
        }
    }

    /// This mask with `modifier` set to `on` and the other three untouched.
    pub open spec fn spec_with(self, modifier: Modifier, on: bool) -> ModifiersState {
        match modifier {
            Modifier::Shift => ModifiersState { shift: on, ..self },
            Modifier::Control => ModifiersState { control: on, ..self },
            Modifier::Alt => ModifiersState { alt: on, ..self },
            Modifier::Super => ModifiersState { super_key: on, ..self },
        }
    }

    /// The mask with no modifier in effect.
    pub fn empty() -> (mask: ModifiersState)
        ensures
            mask == ModifiersState::spec_empty(),
    {
        ModifiersState { shift: false, control: false, alt: false, super_key: false }
    }

    /// Whether no modifier is in effect.
    pub fn is_empty(self) -> (none: bool)
        ensures
            none == (self == ModifiersState::spec_empty()),
    {
        !self.shift && !self.control && !self.alt && !self.super_key
    }

    /// Whether `modifier` is in effect in this mask.
    pub fn contains(self, modifier: Modifier) -> (on: bool)
        ensures
            on == self.spec_contains(modifier),
    {
        match modifier {
            Modifier::Shift => self.shift,
            Modifier::Control => self.control,
            Modifier::Alt => self.alt,
            Modifier::Super => self.super_key,
        }
    }

    /// Puts `modifier` into effect.
    pub fn insert(&mut self, modifier: Modifier)
        ensures
            *final(self) == old(self).spec_with(modifier, true),
    {
        self.set(modifier, true);
    }

    /// Takes `modifier` out of effect.
    pub fn remove(&mut self, modifier: Modifier)
        ensures
            *final(self) == old(self).spec_with(modifier, false),
    {
        self.set(modifier, false);
    }

    /// Sets `modifier` to `on` and leaves the other three as they are.
    pub fn set(&mut self, modifier: Modifier, on: bool)
        ensures
            *final(self) == old(self).spec_with(modifier, on),
    {
        match modifier {
            Modifier::Shift => {
                self.shift = on;
            },
            Modifier::Control => {
                self.control = on;
            },
            Modifier::Alt => {
                self.alt = on;
            },
            Modifier::Super => {
                self.super_key = on;
            },
        }
    }
}

impl Default for ModifiersState {
    fn default() -> (mask: ModifiersState)
        ensures
            mask == ModifiersState::spec_empty(),
    {
        ModifiersState::empty()
    }
}

} // verus!
