//! The errors of the host's window.

use vstd::prelude::*;

verus! {

/// Why the host's window could not be set up. Each variant carries the value
/// that was refused.
#[derive(Debug, Clone, Copy, PartialEq, Eq)]
pub enum WindowError {
    /// No key of the keyboard carries this label.
    UnknownMapping(char),
    /// A display of this width and height has more pixels than can be counted.
    InvalidScreenSize(usize, usize),
    /// This length, scaled by this factor, is more than a window can measure.
    InvalidScale(usize, u8),
    /// No frame can be shown this many times a second.
    InvalidFPS(u32),
}

} // verus!
