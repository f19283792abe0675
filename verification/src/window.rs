//! The rules of the host's window: which events close it, and which keys they
//! move.

use crate::window::keyboard::KeyboardEngine;
use crate::window::keyboard::KeyboardState;
use vstd::prelude::*;

pub mod audio;
pub mod error;
pub mod keyboard;
pub mod video;

verus! {

/// How many times a window is larger than the display where no scale is asked
/// for.
pub const WINDOW_SCALE: u8 = 8;

/// How many frames a second are shown where no rate is asked for.
pub const WINDOW_FRAMERATE: u32 = 30;

/// The keycode of the key that closes the window.
pub const KEYCODE_ESCAPE: i32 = 27;

/// What the host's window reports, as far as the machine's host minds.
#[derive(Debug, Clone, Copy, PartialEq, Eq)]
pub enum Event {
    /// The window is to close.
    Quit,
    /// A key went down; its keycode and its scancode, as far as they are known.
    KeyDown { keycode: Option<i32>, scancode: Option<i32> },
    /// A key went up; its scancode, if it is known.
    KeyUp { scancode: Option<i32> },
    /// Anything else.
    Other,
}

impl Event {
    /// Whether the event closes the window: a request to quit does, and so does
    /// the escape key going down.
    pub open spec fn spec_closes(self) -> bool {
        match self {
            Event::Quit => true,
            Event::KeyDown { keycode, scancode } => keycode == Some(KEYCODE_ESCAPE),
            _ => false,
        }
    }

    /// The keyboard after the event: a key with a known scancode that goes
    /// down or up is followed, and any other event changes nothing.
    pub open spec fn spec_applied(self, keyboard: KeyboardState) -> KeyboardState {
        match self {
            Event::KeyDown { keycode, scancode: Some(code) } => keyboard.spec_key(code, true),
            Event::KeyUp { scancode: Some(code) } => keyboard.spec_key(code, false),
            _ => keyboard,
        }
    }
}

/// The place of the first of the first `k` events that closes the window, or
/// `k` where none does.
pub open spec fn spec_closing(events: Seq<Event>, k: int) -> int
    decreases k,
{
    if k <= 0 {
        0
    } else if spec_closing(events, k - 1) < k - 1 {
        spec_closing(events, k - 1)
    } else if events[k - 1].spec_closes() {
        k - 1
    } else {
        k
    }
}

/// The keyboard after the first `k` events of `events`.
pub open spec fn spec_processed(keyboard: KeyboardState, events: Seq<Event>, k: int) -> KeyboardState
    decreases k,
{
    if k <= 0 {
        keyboard
    } else {
        events[k - 1].spec_applied(spec_processed(keyboard, events, k - 1))
    }
}

/// Takes the events that the window has reported, in their order, up to the
/// first that closes the window: keys that go down or up are followed on
/// `keyboard`. Says whether the window stays open.
pub fn process_events(keyboard: &mut KeyboardEngine, events: &[Event]) -> (open: bool)
    ensures
        open == (spec_closing(events@, events@.len() as int) == events@.len()),
        final(keyboard)@ == spec_processed(
            old(keyboard)@,
            events@,
            spec_closing(events@, events@.len() as int),
        ),
{
    let mut k: usize = 0;
    while k < events.len()
        invariant
            k <= events@.len(),
            spec_closing(events@, k as int) == k,
            keyboard@ == spec_processed(old(keyboard)@, events@, k as int),
        decreases events@.len() - k,
    {
        match events[k] {
            Event::Quit => {
                proof {
                    lemma_closed(events@, k as int, events@.len() as int);
                }
                return false;
            },
            Event::KeyDown { keycode: Some(KEYCODE_ESCAPE), .. } => {
                proof {
                    lemma_closed(events@, k as int, events@.len() as int);
                }
                return false;
            },
            Event::KeyDown { scancode: Some(key), .. } => {
                keyboard.key_down(key);
            },
            Event::KeyUp { scancode: Some(key) } => {
                keyboard.key_up(key);
            },
            _ => {},
        }
        k += 1;
    }
    true
}

/// Once an event has closed the window, the events after it do not count.
proof fn lemma_closed(events: Seq<Event>, at: int, k: int)
    requires
        0 <= at < k <= events.len(),
        spec_closing(events, at) == at,
        events[at].spec_closes(),
    ensures
        spec_closing(events, k) == at,
    decreases k,
{
    if k > at + 1 {
        lemma_closed(events, at, k - 1);
    }
}

} // verus!
