//! Value types of the other screenshot paths the launcher knows: the
//! desktop-portal capture, the per-output capture, and raw frame data as a
//! capture protocol delivers it. The captures themselves are I/O and stay
//! with the caller; these types carry their results around.

use crate::strutil::{contains_seq, contains_str, lower_of, lowercase};
use crate::window_info::{WindowGeometry, WindowGeometryV};
use vstd::prelude::*;

verus! {

/// The screen region a known window geometry selects for cropping: the
/// corner clamped into the screen (and away from its last 100 pixels), the
/// size clamped to what remains.
pub open spec fn crop_from_geometry(g: WindowGeometryV, sw: u32, sh: u32) -> (u32, u32, u32, u32) {
    let gx = if g.x >= 0 {
        g.x as int
    } else {
        0
    };
    let capx = if sw >= 100 {
        sw - 100
    } else {
        0
    };
    let x = if gx <= capx {
        gx
    } else {
        capx
    };
    let gy = if g.y >= 0 {
        g.y as int
    } else {
        0
    };
    let capy = if sh >= 100 {
        sh - 100
    } else {
        0
    };
    let y = if gy <= capy {
        gy
    } else {
        capy
    };
    let w = if g.width <= sw - x {
        g.width as int
    } else {
        sw - x
    };
    let h = if g.height <= sh - y {
        g.height as int
    } else {
        sh - y
    };
    (x as u32, y as u32, w as u32, h as u32)
}

/// The fallback region when no geometry is known, chosen from the lowercased
/// title `t` and the title's byte length `nbytes`: a screen quadrant per
/// well-known application, else a quarter-screen region offset by a
/// title-dependent amount.
pub open spec fn fallback_region(t: Seq<char>, nbytes: int, sw: u32, sh: u32) -> (
    u32,
    u32,
    u32,
    u32,
) {
    let cw = (sw / 2) as u32;
    let ch = (sh / 2) as u32;
    if contains_seq(t, "firefox"@) || contains_seq(t, "mozilla"@) {
        (0u32, 0u32, cw, ch)
    } else if contains_seq(t, "discord"@) {
        (cw, 0u32, cw, ch)
    } else if contains_seq(t, "terminal"@) {
        (0u32, (sh / 2) as u32, cw, ch)
    } else if contains_seq(t, "files"@) {
        (cw, ch, cw, ch)
    } else if contains_seq(t, "mattermost"@) {
        ((sw / 4) as u32, (sh / 4) as u32, cw, ch)
    } else {
        (((nbytes * 50) % (sw as int / 4)) as u32, ((nbytes * 30) % (sh as int / 4)) as u32, cw, ch)
    }
}

/// The region of a full-screen shot to crop for the window named `title`:
/// the window's own clamped geometry when one is known, else a fallback
/// region chosen from the title.
pub fn get_crop_region_for_window(
    geometry: Option<&WindowGeometry>,
    title: &str,
    screen_width: u32,
    screen_height: u32,
) -> (r: (u32, u32, u32, u32))
    requires
        screen_width >= 4,
        screen_height >= 4,
    ensures
        match geometry {
            Some(g) => r == crop_from_geometry(g@, screen_width, screen_height),
            None => r == fallback_region(
                lower_of(title@),
                title.len() as int,
                screen_width,
                screen_height,
            ),
        },
{
    match geometry {
        Some(g) => {
        let gx: u32 = if g.x >= 0 {
            g.x as u32
        } else {
            0
        };
        let capx: u32 = if screen_width >= 100 {
            screen_width - 100
        } else {
            0
        };
        let x: u32 = if gx <= capx {
            gx
        } else {
            capx
        };
        let gy: u32 = if g.y >= 0 {
            g.y as u32
        } else {
            0
        };
        let capy: u32 = if screen_height >= 100 {
            screen_height - 100
        } else {
            0
        };
        let y: u32 = if gy <= capy {
            gy
        } else {
            capy
        };
        let w: u32 = if g.width <= screen_width - x {
            g.width
        } else {
            screen_width - x
        };
        let h: u32 = if g.height <= screen_height - y {
            g.height
        } else {
            screen_height - y
        };
        (x, y, w, h)
        },
        None => {
    let region = fallback_for_title(title, screen_width, screen_height);
    region
        },
    }
}

/// The fallback crop region, computed from the title alone.
fn fallback_for_title(title: &str, screen_width: u32, screen_height: u32) -> (r: (
    u32,
    u32,
    u32,
    u32,
))
    requires
        screen_width >= 4,
        screen_height >= 4,
    ensures
        r == fallback_region(
            lower_of(title@),
            title.len() as int,
            screen_width,
            screen_height,
        ),
{
    let t = lowercase(title);
    let tl = t.as_str();
    let cw: u32 = screen_width / 2;
    let ch: u32 = screen_height / 2;
    if contains_str(tl, "firefox") || contains_str(tl, "mozilla") {
        (0, 0, cw, ch)
    } else if contains_str(tl, "discord") {
        (cw, 0, cw, ch)
    } else if contains_str(tl, "terminal") {
        (0, ch, cw, ch)
    } else if contains_str(tl, "files") {
        (cw, ch, cw, ch)
    } else if contains_str(tl, "mattermost") {
        (screen_width / 4, screen_height / 4, cw, ch)
    } else {
        let nbytes = title.len();
        let oxw: u128 = (nbytes as u128 * 50) % ((screen_width / 4) as u128);
        let oyw: u128 = (nbytes as u128 * 30) % ((screen_height / 4) as u128);
        proof {
            assert(oxw < (screen_width / 4) as u128);
            assert(oyw < (screen_height / 4) as u128);
            assert(oxw == (nbytes * 50) % (screen_width as int / 4));
            assert(oyw == (nbytes * 30) % (screen_height as int / 4));
        }
        let ox: u32 = oxw as u32;
        let oy: u32 = oyw as u32;
        (ox, oy, cw, ch)
    }
}

/// A full-screen capture obtained through the desktop portal, stamped with
/// the caller's millisecond tick.
#[derive(Debug)]
pub struct PortalScreenshot {
    pub window_id: String,
    pub image_data: Vec<u8>,
    pub width: u32,
    pub height: u32,
    pub timestamp: u64,
}

impl Clone for PortalScreenshot {
    fn clone(&self) -> (r: Self)
        ensures
            r.window_id@ == self.window_id@,
            r.image_data@ == self.image_data@,
            r.width == self.width,
            r.height == self.height,
            r.timestamp == self.timestamp,
    {
        PortalScreenshot {
            window_id: self.window_id.clone(),
            image_data: self.image_data.clone(),
            width: self.width,
            height: self.height,
            timestamp: self.timestamp,
        }
    }
}

/// A per-output capture, stamped with the caller's millisecond tick.
#[derive(Debug)]
pub struct WayshotScreenshot {
    pub window_id: String,
    pub image_data: Vec<u8>,
    pub width: u32,
    pub height: u32,
    pub timestamp: u64,
}

impl Clone for WayshotScreenshot {
    fn clone(&self) -> (r: Self)
        ensures
            r.window_id@ == self.window_id@,
            r.image_data@ == self.image_data@,
            r.width == self.width,
            r.height == self.height,
            r.timestamp == self.timestamp,
    {
        WayshotScreenshot {
            window_id: self.window_id.clone(),
            image_data: self.image_data.clone(),
            width: self.width,
            height: self.height,
            timestamp: self.timestamp,
        }
    }
}

/// One raw frame as a capture protocol delivers it: pixel bytes with their
/// dimensions, row stride and format code.
#[derive(Debug)]
pub struct ScreenshotData {
    pub buffer: Vec<u8>,
    pub width: u32,
    pub height: u32,
    pub stride: u32,
    pub format: u32,
}

impl ScreenshotData {
    /// The frame's rows are packed: stride is exactly four bytes per pixel,
    /// and the buffer holds exactly the frame.
    pub open spec fn packed(self) -> bool {
        self.stride == self.width * 4 && self.buffer@.len() == self.width * self.height * 4
    }
}

impl Clone for ScreenshotData {
    fn clone(&self) -> (r: Self)
        ensures
            r.buffer@ == self.buffer@,
            r.width == self.width,
            r.height == self.height,
            r.stride == self.stride,
            r.format == self.format,
    {
        ScreenshotData {
            buffer: self.buffer.clone(),
            width: self.width,
            height: self.height,
            stride: self.stride,
            format: self.format,
        }
    }
}

/// Marker for the capture system in use: the compositor's native capture
/// protocol, driven by the worker thread.
#[derive(Debug, Clone, Copy, PartialEq, Eq, Structural)]
pub struct ScreenshotManager;

impl ScreenshotManager {
    pub fn new() -> (r: Self)
        ensures
            r == ScreenshotManager,
    {
        ScreenshotManager
    }
}

} // verus!
