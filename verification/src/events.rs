//! The event vocabulary shared by the worker thread, the registry and the
//! bridge: window metadata as the compositor reports it, and the tagged
//! updates that flow to the consumer.

use crate::WaylandImage;
use vstd::prelude::*;

verus! {

/// Opaque compositor-assigned window identifier, stable for the window's
/// lifetime; the sole lookup key across the registry and capture routing.
#[derive(Debug, Clone, Copy, PartialEq, Eq, Hash, Structural)]
pub struct ToplevelHandle {
    pub id: u64,
}

/// Mathematical model of [`ToplevelInfo`]: the handle and the text fields as
/// character sequences.
pub struct ToplevelInfoV {
    pub handle: u64,
    pub title: Seq<char>,
    pub app_id: Seq<char>,
    pub flags: u64,
}

/// Metadata of one top-level window: created on Add, replaced wholesale on
/// Update, dropped on Remove.
#[derive(Debug)]
pub struct ToplevelInfo {
    pub handle: ToplevelHandle,
    pub title: String,
    pub app_id: String,
    pub flags: u64,
}

impl View for ToplevelInfo {
    type V = ToplevelInfoV;

    open spec fn view(&self) -> ToplevelInfoV {
        ToplevelInfoV {
            handle: self.handle.id,
            title: self.title@,
            app_id: self.app_id@,
            flags: self.flags,
        }
    }
}

impl Clone for ToplevelInfo {
    fn clone(&self) -> (r: Self)
        ensures
            r@ == self@,
    {
        ToplevelInfo {
            handle: self.handle,
            title: self.title.clone(),
            app_id: self.app_id.clone(),
            flags: self.flags,
        }
    }
}

/// A change to the tracked window set, in the order the compositor
/// reported it.
#[derive(Debug)]
pub enum ToplevelUpdate {
    Add(ToplevelInfo),
    Update(ToplevelInfo),
    Remove(ToplevelHandle),
}

/// Model of a [`ToplevelUpdate`].
pub enum ToplevelUpdateV {
    Add(ToplevelInfoV),
    Update(ToplevelInfoV),
    Remove(u64),
}

impl View for ToplevelUpdate {
    type V = ToplevelUpdateV;

    open spec fn view(&self) -> ToplevelUpdateV {
        match self {
            ToplevelUpdate::Add(info) => ToplevelUpdateV::Add(info@),
            ToplevelUpdate::Update(info) => ToplevelUpdateV::Update(info@),
            ToplevelUpdate::Remove(handle) => ToplevelUpdateV::Remove(handle.id),
        }
    }
}

/// One item of the downstream event stream the consumer sees.
#[derive(Debug)]
pub enum WaylandUpdate {
    Init,
    Finished,
    Toplevel(ToplevelUpdate),
    Image(ToplevelHandle, WaylandImage),
}

} // verus!
