//! Keyboard and mouse input values carried by engine events.

use vstd::prelude::*;

verus! {

/// Keys that the engine and its layers react to.
#[derive(Debug, Copy, Clone, PartialEq, Eq, Structural, Hash)]
pub enum EnumKey {
    Escape,
    Enter,
    Delete,
    Minus,
    Up,
    Down,
    Left,
    Right,
    Num0,
    Num1,
    Num2,
    A,
    D,
    R,
    S,
    V,
    W,
    Unknown,
}

/// What happened to a key or a mouse button.
#[derive(Debug, Copy, Clone, PartialEq, Eq, Structural, Hash)]
pub enum EnumAction {
    Pressed,
    Released,
    Held,
}

/// Mouse buttons.
#[derive(Debug, Copy, Clone, PartialEq, Eq, Structural, Hash)]
pub enum EnumMouseButton {
    Left,
    Right,
    Middle,
    Other,
}

/// Errors raised while querying input state.
#[derive(Debug, Copy, Clone, PartialEq, Eq, Structural, Hash)]
pub enum EnumInputError {
    InvalidInput,
}

/// Modifier keys held during an input event, as a bit set.
#[derive(Debug, Copy, Clone, PartialEq, Eq, Structural, Hash)]
pub struct EnumModifiers(pub u8);

#[allow(non_snake_case)]
impl EnumModifiers {
    pub fn Shift() -> (r: EnumModifiers)
        ensures
            r.0 == 1u8,
    {
        EnumModifiers(1)
    }

    pub fn Control() -> (r: EnumModifiers)
        ensures
            r.0 == 2u8,
    {
        EnumModifiers(2)
    }

    pub fn Alt() -> (r: EnumModifiers)
        ensures
            r.0 == 4u8,
    {
        EnumModifiers(4)
    }

    pub fn Super() -> (r: EnumModifiers)
        ensures
            r.0 == 8u8,
    {
        EnumModifiers(8)
    }
}

} // verus!
