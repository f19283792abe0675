//! What the host lends the machine: display, keys and buzzer flag.

use vstd::prelude::*;

pub mod screen;

pub use screen::Screen;

verus! {

/// What the host lends the machine for one advance: its display, the state of
/// its sixteen keys, and the flag that switches its buzzer.
pub struct IO<'a, S: Screen> {
    pub screen: &'a mut S,
    pub pad: &'a [bool],
    pub audio: &'a mut bool,
}

} // verus!
