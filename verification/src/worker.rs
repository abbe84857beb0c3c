//! Decisions of the protocol worker thread's callbacks: each compositor
//! notification becomes a registry mutation, the event to send down the
//! bridge channel, and — for a new window — the handle a capture session
//! must be started for. The connection, the dispatch loop and the channel
//! sends live with the caller.

use crate::events::{ToplevelHandle, ToplevelInfo, ToplevelUpdate, ToplevelUpdateV, WaylandUpdate};
use crate::registry::{apply_update, contains_handle, ToplevelRegistry};
use vstd::prelude::*;

verus! {

/// New-window callback: record the window, emit its Add event, and name the
/// handle to start a capture session for, asynchronously.
pub fn on_new_toplevel(reg: &mut ToplevelRegistry, info: ToplevelInfo) -> (r: (
    WaylandUpdate,
    ToplevelHandle,
))
    requires
        old(reg).wf(),
    ensures
        final (reg).wf(),
        final (reg).model() == apply_update(old(reg).model(), ToplevelUpdateV::Add(info@)),
        r.0 == WaylandUpdate::Toplevel(ToplevelUpdate::Add(info)),
        r.1 == info.handle,
{
    let handle = info.handle;
    let stored = info.clone();
    reg.insert(stored);
    (WaylandUpdate::Toplevel(ToplevelUpdate::Add(info)), handle)
}

/// Update callback: replace the entry wholesale and emit the Update event;
/// a handle the registry does not know is ignored and nothing is emitted.
pub fn on_toplevel_updated(reg: &mut ToplevelRegistry, info: ToplevelInfo) -> (r: Option<
    WaylandUpdate,
>)
    requires
        old(reg).wf(),
    ensures
        final (reg).wf(),
        final (reg).model() == apply_update(old(reg).model(), ToplevelUpdateV::Update(info@)),
        contains_handle(old(reg).model(), info@.handle) ==> r == Some(
            WaylandUpdate::Toplevel(ToplevelUpdate::Update(info)),
        ),
        !contains_handle(old(reg).model(), info@.handle) ==> r is None,
{
    let stored = info.clone();
    if reg.update(stored) {
        Some(WaylandUpdate::Toplevel(ToplevelUpdate::Update(info)))
    } else {
        None
    }
}

/// Close callback: erase the entry and emit the Remove event.
pub fn on_toplevel_closed(reg: &mut ToplevelRegistry, handle: ToplevelHandle) -> (r: WaylandUpdate)
    requires
        old(reg).wf(),
    ensures
        final (reg).wf(),
        final (reg).model() == apply_update(old(reg).model(), ToplevelUpdateV::Remove(handle.id)),
        r == WaylandUpdate::Toplevel(ToplevelUpdate::Remove(handle)),
{
    reg.remove(handle);
    WaylandUpdate::Toplevel(ToplevelUpdate::Remove(handle))
}

} // verus!
