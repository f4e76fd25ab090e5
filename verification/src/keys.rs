//! Decoded keystrokes, as the dispatcher understands them. Decoding raw
//! terminal bytes happens outside the library; it hands over one of these.

use vstd::prelude::*;

verus! {

/// A decoded keystroke. Keys the client does not bind decode to `Other` and
/// leave the state unchanged.
#[derive(Clone, Copy, Debug, PartialEq, Eq, Structural)]
pub enum Key {
    /// A printable character, or '\n' for enter, or '\t' for tab.
    Char(char),
    /// A character pressed together with control.
    Ctrl(char),
    Backspace,
    Esc,
    /// Any key without a binding.
    Other,
}

} // verus!
