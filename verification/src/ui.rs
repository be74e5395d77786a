//! User-interface kinds and errors.

use vstd::prelude::*;

verus! {

/// Errors raised by user-interface elements.
#[derive(Debug, Copy, Clone, PartialEq, Eq, Structural, Hash)]
pub enum EnumUIError {
    InvalidContext,
    InvalidUiOptions,
    ApiError,
}

/// How a user-interface panel is placed.
#[derive(Debug, Copy, Clone, PartialEq, Eq, Structural, Hash)]
pub enum EnumUiType {
    Docked,
    Floating,
}

} // verus!
