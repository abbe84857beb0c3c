//! Window tracking and thumbnail capture for a task-switcher UI.
//!
//! The crate tracks the top-level windows a compositor exposes, runs the
//! per-window screenshot handshake as an explicit state machine, converts the
//! captured pixels from the compositor's reversed-channel layout to canonical
//! RGBA, downscales them to thumbnails, and forwards every event through a
//! single-consumer bridge in production order.

pub mod bridge;
pub mod capture;
pub mod convert;
pub mod events;
pub mod registry;
pub mod screenshots;
pub mod strutil;
pub mod ui;
pub mod window_info;
pub mod xcap;
pub mod worker;

use vstd::prelude::*;

verus! {

/// A captured window image: canonical RGBA8 pixel bytes, row-major,
/// `width * height * 4` bytes with no row padding.
#[derive(Debug)]
pub struct WaylandImage {
    pub img: Vec<u8>,
    pub width: u32,
    pub height: u32,
}

impl Clone for WaylandImage {
    fn clone(&self) -> (r: Self)
        ensures
            r.img@ == self.img@,
            r.width == self.width,
            r.height == self.height,
    {
        WaylandImage { img: self.img.clone(), width: self.width, height: self.height }
    }
}

impl WaylandImage {
    /// The bytes describe exactly `width x height` four-byte pixels.
    pub open spec fn wf(self) -> bool {
        self.img@.len() == self.width * self.height * 4
    }

    pub fn new(img: Vec<u8>, width: u32, height: u32) -> (r: Self)
        requires
            img@.len() == width * height * 4,
        ensures
            r.wf(),
            r.img@ == img@,
            r.width == width,
            r.height == height,
    {
        WaylandImage { img, width, height }
    }
}

} // verus!
