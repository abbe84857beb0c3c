//! The capture session engine: one complete screenshot handshake for a
//! single window, expressed as a linear state machine. The blocking waits,
//! the shared-memory file and the protocol requests live with the caller;
//! this module decides every transition and produces the final image.

use crate::convert::{
    convert_reversed_to_rgba,
    reordered,
    thumb_height,
    thumb_width,
    thumbnail,
    thumbnail_bytes,
};
use crate::events::{ToplevelHandle, WaylandUpdate};
use crate::WaylandImage;
use vstd::prelude::*;

verus! {

/// The one shm format the engine accepts: four bytes per pixel, alpha last,
/// red and blue swapped relative to canonical RGBA order.
pub const SUPPORTED_SHM_FORMAT: u32 = 0x34324241;

/// Longer side of every emitted thumbnail is at most this.
pub const THUMBNAIL_BOUND: u32 = 128;

/// What the worker thread's protocol callback delivers once the compositor
/// has negotiated a session: buffer dimensions and the offered shm formats.
#[derive(Debug)]
pub struct NegotiatedFormats {
    pub width: u32,
    pub height: u32,
    pub shm_formats: Vec<u32>,
}

impl Clone for NegotiatedFormats {
    fn clone(&self) -> (r: Self)
        ensures
            r.width == self.width,
            r.height == self.height,
            r.shm_formats@ == self.shm_formats@,
    {
        NegotiatedFormats {
            width: self.width,
            height: self.height,
            shm_formats: self.shm_formats.clone(),
        }
    }
}

/// Terminal result of a frame capture as the compositor reports it.
#[derive(Debug, Clone, Copy, PartialEq, Eq, Structural)]
pub enum CaptureOutcome {
    Ready,
    Failed(u32),
}

/// The state one capture thread and the worker thread share: negotiated
/// formats, present once delivered, and the outcome, written exactly once.
/// The mutex and condition signal guarding a value of this type live with
/// the caller.
#[derive(Debug)]
pub struct SessionShared {
    pub formats: Option<NegotiatedFormats>,
    pub outcome: Option<CaptureOutcome>,
}

impl SessionShared {
    pub fn new() -> (r: Self)
        ensures
            r.formats is None,
            r.outcome is None,
    {
        SessionShared { formats: None, outcome: None }
    }

    /// Record the negotiated formats; they arrive at most once.
    pub fn set_formats(&mut self, formats: NegotiatedFormats)
        requires
            old(self).formats is None,
        ensures
            final (self).formats == Some(formats),
            final (self).outcome == old(self).outcome,
    {
        self.formats = Some(formats);
    }

    /// Record the terminal outcome; it transitions from pending exactly once.
    pub fn set_outcome(&mut self, outcome: CaptureOutcome)
        requires
            old(self).outcome is None,
        ensures
            final (self).outcome == Some(outcome),
            final (self).formats == old(self).formats,
    {
        self.outcome = Some(outcome);
    }
}

/// Phases of the handshake, in the order a successful capture passes them.
#[derive(Debug, Clone, Copy, PartialEq, Eq, Structural)]
pub enum CapturePhase {
    Requested,
    AwaitingFormats,
    BufferReady,
    AwaitingResult,
    Completed,
    Failed,
}

/// A negotiation is acceptable when both dimensions are nonzero, the
/// reversed-channel format is among the offers, and the buffer size fits
/// the protocol's 32-bit length.
pub open spec fn formats_acceptable(f: NegotiatedFormats) -> bool {
    &&& f.width > 0
    &&& f.height > 0
    &&& f.shm_formats@.contains(SUPPORTED_SHM_FORMAT)
    &&& f.width * f.height * 4 <= u32::MAX
}

/// One screenshot handshake, bound to its target window.
#[derive(Debug)]
pub struct CaptureSession {
    pub handle: ToplevelHandle,
    pub phase: CapturePhase,
    pub width: u32,
    pub height: u32,
}

impl CaptureSession {
    /// Dimensions recorded by a successful negotiation stay within the
    /// 32-bit buffer length.
    pub open spec fn wf(self) -> bool {
        self.phase == CapturePhase::BufferReady || self.phase == CapturePhase::AwaitingResult
            || self.phase == CapturePhase::Completed ==> self.width * self.height * 4 <= u32::MAX
    }

    /// A capture session bound to the target handle as its source.
    pub fn new(handle: ToplevelHandle) -> (r: Self)
        ensures
            r.handle == handle,
            r.phase == CapturePhase::Requested,
            r.wf(),
    {
        CaptureSession { handle, phase: CapturePhase::Requested, width: 0, height: 0 }
    }

    /// The session object exists with the compositor; block-wait for the
    /// format negotiation next.
    pub fn session_created(&mut self)
        requires
            old(self).phase == CapturePhase::Requested,
        ensures
            final (self).phase == CapturePhase::AwaitingFormats,
            final (self).handle == old(self).handle,
            final (self).wf(),
    {
        self.phase = CapturePhase::AwaitingFormats;
    }

    /// Validate the negotiated formats. An acceptable negotiation moves the
    /// session to BufferReady and says how many bytes the shared buffer must
    /// hold (`width * height * 4`, no row padding); anything else aborts to
    /// Failed and no image is ever emitted.
    pub fn formats_received(&mut self, formats: &NegotiatedFormats) -> (r: Option<u32>)
        requires
            old(self).phase == CapturePhase::AwaitingFormats,
        ensures
            final (self).handle == old(self).handle,
            final (self).wf(),
            formats_acceptable(*formats) ==> {
                &&& r == Some((formats.width * formats.height * 4) as u32)
                &&& final (self).phase == CapturePhase::BufferReady
                &&& final (self).width == formats.width
                &&& final (self).height == formats.height
            },
            !formats_acceptable(*formats) ==> r is None && final (self).phase
                == CapturePhase::Failed,
    {
        if formats.width == 0 || formats.height == 0 {
            self.phase = CapturePhase::Failed;
            return None;
        }
        if !contains_format(&formats.shm_formats, SUPPORTED_SHM_FORMAT) {
            self.phase = CapturePhase::Failed;
            return None;
        }
        proof {
            vstd::arithmetic::mul::lemma_mul_upper_bound(
                formats.width as int,
                u32::MAX as int,
                formats.height as int,
                u32::MAX as int,
            );
        }
        let pixels: u64 = formats.width as u64 * formats.height as u64;
        if pixels > (u32::MAX as u64) / 4 {
            self.phase = CapturePhase::Failed;
            return None;
        }
        self.phase = CapturePhase::BufferReady;
        self.width = formats.width;
        self.height = formats.height;
        Some((pixels * 4) as u32)
    }

    /// The buffer is bound and the frame-capture request issued; block-wait
    /// for the result next.
    pub fn capture_requested(&mut self)
        requires
            old(self).phase == CapturePhase::BufferReady,
            old(self).wf(),
        ensures
            final (self).phase == CapturePhase::AwaitingResult,
            final (self).handle == old(self).handle,
            final (self).width == old(self).width,
            final (self).height == old(self).height,
            final (self).wf(),
    {
        self.phase = CapturePhase::AwaitingResult;
    }

    /// The compositor reported the frame: ready completes the session,
    /// failed (whatever the reason) aborts it.
    pub fn outcome_received(&mut self, outcome: CaptureOutcome)
        requires
            old(self).phase == CapturePhase::AwaitingResult,
            old(self).wf(),
        ensures
            final (self).handle == old(self).handle,
            final (self).width == old(self).width,
            final (self).height == old(self).height,
            final (self).wf(),
            outcome == CaptureOutcome::Ready ==> final (self).phase == CapturePhase::Completed,
            outcome != CaptureOutcome::Ready ==> final (self).phase == CapturePhase::Failed,
    {
        match outcome {
            CaptureOutcome::Ready => {
                self.phase = CapturePhase::Completed;
            },
            CaptureOutcome::Failed(_) => {
                self.phase = CapturePhase::Failed;
            },
        }
    }

    /// Turn the raw buffer of a completed session into the readiness event:
    /// the pixels reordered to canonical RGBA and bounded to thumbnail size,
    /// routed to this session's window handle.
    pub fn produce_update(&self, raw: &Vec<u8>) -> (r: WaylandUpdate)
        requires
            self.phase == CapturePhase::Completed,
            self.wf(),
            raw@.len() == self.width * self.height * 4,
        ensures
            ({
                let canon = reordered(raw@, self.width, self.height);
                match r {
                    WaylandUpdate::Image(h, img) => {
                        &&& h == self.handle
                        &&& img.wf()
                        &&& img.width == thumb_width(self.width, self.height, THUMBNAIL_BOUND)
                        &&& img.height == thumb_height(self.width, self.height, THUMBNAIL_BOUND)
                        &&& img.img@ == thumbnail_bytes(
                            canon,
                            self.width,
                            self.height,
                            THUMBNAIL_BOUND,
                        )
                    },
                    _ => false,
                }
            }),
    {
        let canon = convert_reversed_to_rgba(raw, self.width, self.height);
        let full = WaylandImage { img: canon, width: self.width, height: self.height };
        let thumb = thumbnail(full, THUMBNAIL_BOUND);
        WaylandUpdate::Image(self.handle, thumb)
    }
}

/// Whether the offered format list names `x`.
fn contains_format(formats: &Vec<u32>, x: u32) -> (r: bool)
    ensures
        r == formats@.contains(x),
{
    let n = formats.len();
    let mut i: usize = 0;
    while i < n
        invariant
            i <= n,
            n == formats@.len(),
            forall|j: int| 0 <= j < i ==> formats@[j] != x,
        decreases n - i,
    {
        if formats[i] == x {
            assert(formats@[i as int] == x);
            return true;
        }
        i = i + 1;
    }
    false
}

} // verus!
