//! The host's display: the grid of pixels, and when and where to show it.

use crate::io::Screen;
use crate::options::Rgb;
use crate::window::error::WindowError;
use vstd::prelude::*;

verus! {

/// Number of nanoseconds in a second.
pub const SECOND: u64 = 1_000_000_000;

/// The display as the host keeps it: the grid of pixels that the machine draws
/// on, the two colours it is shown in, and the pace at which it is shown.
///
/// Time is a count of nanoseconds from a start that the host chooses.
#[derive(Debug)]
pub struct VideoEngine {
    buffer: Vec<bool>,
    width: usize,
    height: usize,
    fps: u64,
    last: Option<u64>,
    bg: Rgb,
    fg: Rgb,
}

/// What a display holds, as plain values.
#[verifier::ext_equal]
pub struct VideoState {
    /// The pixels, row after row.
    pub pixels: Seq<bool>,
    /// Number of pixels in a row.
    pub width: nat,
    /// Number of rows.
    pub height: nat,
    /// The time from one frame to the next, in nanoseconds.
    pub period: u64,
    /// The time at which the last frame was shown, if one ever was.
    pub last: Option<u64>,
    /// The colour of a dark pixel.
    pub bg: Rgb,
    /// The colour of a lit pixel.
    pub fg: Rgb,
}

/// Where the first `k` pixels of a grid `width` wide are lit: column and row
/// of each lit pixel, row after row.
pub open spec fn spec_points(pixels: Seq<bool>, width: nat, k: int) -> Seq<(i32, i32)>
    decreases k,
{
    if k <= 0 {
        Seq::empty()
    } else if pixels[k - 1] {
        spec_points(pixels, width, k - 1).push(
            (((k - 1) % (width as int)) as i32, ((k - 1) / (width as int)) as i32),
        )
    } else {
        spec_points(pixels, width, k - 1)
    }
}

impl View for VideoEngine {
    type V = VideoState;

    closed spec fn view(&self) -> VideoState {
        VideoState {
            pixels: self.buffer@,
            width: self.width as nat,
            height: self.height as nat,
            period: self.fps,
            last: self.last,
            bg: self.bg,
            fg: self.fg,
        }
    }
}

impl VideoState {
    /// Whether a frame is due at the time `now`: the first frame always is, a
    /// later one once a period has gone by since the last.
    pub open spec fn spec_due(self, now: u64) -> bool {
        match self.last {
            Some(last) => (if now >= last {
                now - last
            } else {
                0
            }) >= self.period,
            None => true,
        }
    }
}

impl VideoEngine {
    /// Whether the grid has as many pixels as its dimensions say.
    pub open spec fn wf(&self) -> bool {
        self@.pixels.len() == self@.width * self@.height
    }

    /// The length `x` scaled by `scale`, as a window measures it, or
    /// `InvalidScale` where the window cannot measure that much.
    pub fn scale(x: usize, scale: u8) -> (r: Result<u32, WindowError>)
        ensures
            r == (if x * scale <= u32::MAX {
                Ok::<u32, WindowError>((x * scale) as u32)
            } else {
                Err(WindowError::InvalidScale(x, scale))
            }),
    {
        match x.checked_mul(scale as usize) {
            Some(scaled) => {
                if scaled <= u32::MAX as usize {
                    Ok(scaled as u32)
                } else {
                    Err(WindowError::InvalidScale(x, scale))
                }
            },
            None => Err(WindowError::InvalidScale(x, scale)),
        }
    }

    /// A dark display of the given width and height, shown `fps` times a
    /// second in the colours `bg` and `fg`. More pixels than can be counted
    /// are refused with `InvalidScreenSize`, and no frames a second with
    /// `InvalidFPS`.
    pub fn new(size: (usize, usize), fps: u32, bg: Rgb, fg: Rgb) -> (r: Result<
        VideoEngine,
        WindowError,
    >)
        ensures
            size.0 * size.1 > usize::MAX ==> r == Err::<VideoEngine, WindowError>(
                WindowError::InvalidScreenSize(size.0, size.1),
            ),
            size.0 * size.1 <= usize::MAX && fps == 0 ==> r == Err::<VideoEngine, WindowError>(
                WindowError::InvalidFPS(fps),
            ),
            size.0 * size.1 <= usize::MAX && fps != 0 ==> (r matches Ok(video) && video.wf()
                && video@ == (VideoState {
                pixels: Seq::new((size.0 * size.1) as nat, |p: int| false),
                width: size.0 as nat,
                height: size.1 as nat,
                period: SECOND / (fps as u64),
                last: None,
                bg: bg,
                fg: fg,
            })),
    {
        let buffer_sz: usize = match size.0.checked_mul(size.1) {
            Some(buffer_sz) => buffer_sz,
            None => {
                return Err(WindowError::InvalidScreenSize(size.0, size.1));
            },
        };
        if fps == 0 {
            return Err(WindowError::InvalidFPS(fps));
        }
        let buffer: Vec<bool> = vec![false; buffer_sz];
        Ok(
            VideoEngine {
                buffer,
                width: size.0,
                height: size.1,
                fps: SECOND / (fps as u64),
                last: None,
                bg,
                fg,
            },
        )
    }

    /// Whether a frame is to be shown at the time `now`; if so, `now` is the
    /// time of the last frame from here on.
    pub fn render(&mut self, now: u64) -> (due: bool)
        ensures
            due == old(self)@.spec_due(now),
            final(self)@ == (VideoState {
                last: if due {
                    Some(now)
                } else {
                    old(self)@.last
                },
                ..old(self)@
            }),
    {
        let due: bool = match self.last {
            Some(prev) => now.saturating_sub(prev) >= self.fps,
            None => true,
        };
        if due {
            self.last = Some(now);
        }
        due
    }

    /// Where the display is lit: column and row of each lit pixel, row after
    /// row.
    pub fn points(&self) -> (lit: Vec<(i32, i32)>)
        requires
            self.wf(),
        ensures
            lit@ == spec_points(self@.pixels, self@.width, self@.pixels.len() as int),
    {
        let mut lit: Vec<(i32, i32)> = Vec::new();
        let mut k: usize = 0;
        while k < self.buffer.len()
            invariant
                k <= self.buffer@.len(),
                self.buffer@.len() == self.width * self.height,
                lit@ == spec_points(self.buffer@, self.width as nat, k as int),
            decreases self.buffer@.len() - k,
        {
            if self.buffer[k] {
                lit.push(
                    (
                        #[verifier::truncate]
                        ((k % self.width) as i32),
                        #[verifier::truncate]
                        ((k / self.width) as i32),
                    ),
                );
            }
            k += 1;
        }
        lit
    }

    /// The colour of a dark pixel.
    pub fn background(&self) -> (bg: Rgb)
        ensures
            bg == self@.bg,
    {
        self.bg
    }

    /// The colour of a lit pixel.
    pub fn foreground(&self) -> (fg: Rgb)
        ensures
            fg == self@.fg,
    {
        self.fg
    }
}

impl Screen for VideoEngine {
    open spec fn pixels(&self) -> Seq<bool> {
        self@.pixels
    }

    open spec fn width(&self) -> nat {
        self@.width
    }

    open spec fn height(&self) -> nat {
        self@.height
    }

    fn as_slice(&self) -> (s: &[bool]) {
        self.buffer.as_slice()
    }

    fn as_mut_slice(&mut self) -> (s: &mut [bool]) {
        self.buffer.as_mut_slice()
    }

    fn get_width(&self) -> (w: usize) {
        self.width
    }

    fn get_height(&self) -> (h: usize) {
        self.height
    }
}

} // verus!
