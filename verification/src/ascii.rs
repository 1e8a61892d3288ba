//! Named ASCII byte values used by the textual forms in this crate.

use vstd::prelude::*;

verus! {

pub const NL: u8 = 10;

pub const SPACE: u8 = 32;

pub const QUOTE: u8 = 34;

pub const COMMA: u8 = 44;

pub const MINUS: u8 = 45;

pub const DOT: u8 = 46;

pub const SLASH: u8 = 47;

pub const D0: u8 = 48;

pub const D9: u8 = 57;

pub const COLON: u8 = 58;

pub const EQUALS: u8 = 61;

pub const LBRACKET: u8 = 91;

pub const RBRACKET: u8 = 93;

/// Uppercase `B`.
pub const UB: u8 = 66;

/// Uppercase `G`.
pub const UG: u8 = 71;

/// Uppercase `K`.
pub const UK: u8 = 75;

/// Uppercase `M`.
pub const UM: u8 = 77;

/// Lowercase `h`.
pub const LH: u8 = 104;

/// Lowercase `m`.
pub const LM: u8 = 109;

/// Lowercase `s`.
pub const LS: u8 = 115;

} // verus!
