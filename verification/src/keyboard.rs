//! Keyboard modifiers, held as the bits of `iced_core::keyboard::Modifiers`.

use vstd::prelude::*;

verus! {

/// The bit of the "control" key (`Modifiers::CTRL`).
pub const CTRL: u32 = 0b100_000;

/// The bit of the "logo" key: command on macOS, super or windows elsewhere
/// (`Modifiers::LOGO`).
pub const LOGO: u32 = 0b100_000_000_000;

/// Whether the bit `key` is set in `bits`.
pub open spec fn holds(bits: u32, key: u32) -> bool {
    bits & key != 0
}

/// Reads `iced_core::keyboard::Modifiers::COMMAND`, the modifiers of a
/// command shortcut.
///
/// Trusted: they are the control key alone, or the logo key alone on macOS;
/// which one depends on the platform and is not stated.
#[verifier::external_body]
pub(crate) fn command_modifiers() -> (bits: u32)
    ensures
        bits == CTRL || bits == LOGO,
{
    iced_core::keyboard::Modifiers::COMMAND.bits()
}

} // verus!
