//! The toplevel registry: the in-memory table of live windows, keyed by
//! compositor handle, mutated only by the worker thread's callbacks.

use crate::events::{ToplevelHandle, ToplevelInfo, ToplevelInfoV, ToplevelUpdateV};
use vstd::prelude::*;

verus! {

/// Some entry of `s` carries handle `h`.
pub open spec fn contains_handle(s: Seq<ToplevelInfoV>, h: u64) -> bool {
    exists|i: int| 0 <= i < s.len() && s[i].handle == h
}

/// Every entry carrying handle `info.handle` replaced wholesale by `info`;
/// other entries and the order untouched.
pub open spec fn replace_handle(s: Seq<ToplevelInfoV>, info: ToplevelInfoV) -> Seq<
    ToplevelInfoV,
> {
    s.map_values(
        |e: ToplevelInfoV|
            if e.handle == info.handle {
                info
            } else {
                e
            },
    )
}

/// `s` without the entries carrying handle `h`, order preserved.
pub open spec fn remove_handle(s: Seq<ToplevelInfoV>, h: u64) -> Seq<ToplevelInfoV>
    decreases s.len(),
{
    if s.len() == 0 {
        Seq::empty()
    } else if s.last().handle == h {
        remove_handle(s.drop_last(), h)
    } else {
        remove_handle(s.drop_last(), h).push(s.last())
    }
}

/// What one reported update does to the table: Add inserts (or replaces a
/// same-handle entry), Update replaces only an existing entry, Remove erases.
pub open spec fn apply_update(s: Seq<ToplevelInfoV>, ev: ToplevelUpdateV) -> Seq<ToplevelInfoV> {
    match ev {
        ToplevelUpdateV::Add(info) => if contains_handle(s, info.handle) {
            replace_handle(s, info)
        } else {
            s.push(info)
        },
        ToplevelUpdateV::Update(info) => if contains_handle(s, info.handle) {
            replace_handle(s, info)
        } else {
            s
        },
        ToplevelUpdateV::Remove(h) => remove_handle(s, h),
    }
}

/// The table after a whole sequence of updates, applied in order.
pub open spec fn apply_updates(s: Seq<ToplevelInfoV>, evs: Seq<ToplevelUpdateV>) -> Seq<
    ToplevelInfoV,
>
    decreases evs.len(),
{
    if evs.len() == 0 {
        s
    } else {
        apply_update(apply_updates(s, evs.drop_last()), evs.last())
    }
}

/// The set of handles present in the table.
pub open spec fn handle_set(s: Seq<ToplevelInfoV>) -> Set<u64> {
    Set::new(|h: u64| contains_handle(s, h))
}

/// The handle set a sequence of updates implies on its own: handles Added
/// and not since Removed.
pub open spec fn implied_handles(evs: Seq<ToplevelUpdateV>) -> Set<u64>
    decreases evs.len(),
{
    if evs.len() == 0 {
        Set::<u64>::empty()
    } else {
        let prev = implied_handles(evs.drop_last());
        match evs.last() {
            ToplevelUpdateV::Add(info) => prev.insert(info.handle),
            ToplevelUpdateV::Update(_) => prev,
            ToplevelUpdateV::Remove(h) => prev.remove(h),
        }
    }
}

/// Removal keeps exactly the entries with other handles.
proof fn lemma_remove_handle_membership(s: Seq<ToplevelInfoV>, h: u64, x: u64)
    ensures
        contains_handle(remove_handle(s, h), x) <==> (contains_handle(s, x) && x != h),
    decreases s.len(),
{
    if s.len() > 0 {
        lemma_remove_handle_membership(s.drop_last(), h, x);
        let r = remove_handle(s, h);
        let rp = remove_handle(s.drop_last(), h);
        if contains_handle(s, x) && x != h {
            let i = choose|i: int| 0 <= i < s.len() && s[i].handle == x;
            if i < s.len() - 1 {
                assert(s.drop_last()[i].handle == x);
                let j = choose|j: int| 0 <= j < rp.len() && rp[j].handle == x;
                assert(r[j].handle == x);
            } else {
                assert(r[r.len() - 1].handle == x);
            }
        }
        if contains_handle(r, x) {
            let i = choose|i: int| 0 <= i < r.len() && r[i].handle == x;
            if s.last().handle == h || i < r.len() - 1 {
                assert(rp[i].handle == x);
                let j = choose|j: int| 0 <= j < s.drop_last().len() && s.drop_last()[j].handle
                    == x;
                assert(s[j].handle == x);
            } else {
                assert(s[s.len() - 1].handle == x);
            }
        }
    }
}

/// One update changes the handle set exactly as the update says: Add puts
/// the handle in, Update leaves the set alone, Remove takes it out.
proof fn lemma_apply_update_handles(s: Seq<ToplevelInfoV>, ev: ToplevelUpdateV)
    ensures
        handle_set(apply_update(s, ev)) =~= (match ev {
            ToplevelUpdateV::Add(info) => handle_set(s).insert(info.handle),
            ToplevelUpdateV::Update(_) => handle_set(s),
            ToplevelUpdateV::Remove(h) => handle_set(s).remove(h),
        }),
{
    match ev {
        ToplevelUpdateV::Add(info) => {
            if contains_handle(s, info.handle) {
                lemma_replace_handle_membership(s, info);
            } else {
                assert forall|x: u64| contains_handle(s.push(info), x) implies contains_handle(
                    s,
                    x,
                ) || x == info.handle by {
                    let i = choose|i: int| 0 <= i < s.push(info).len() && s.push(info)[i].handle
                        == x;
                    if i < s.len() {
                        assert(s[i].handle == x);
                    }
                }
                assert forall|x: u64| contains_handle(s, x) implies contains_handle(
                    s.push(info),
                    x,
                ) by {
                    let i = choose|i: int| 0 <= i < s.len() && s[i].handle == x;
                    assert(s.push(info)[i].handle == x);
                }
                assert(contains_handle(s.push(info), info.handle)) by {
                    assert(s.push(info)[s.len() as int].handle == info.handle);
                }
            }
        },
        ToplevelUpdateV::Update(info) => {
            if contains_handle(s, info.handle) {
                lemma_replace_handle_membership(s, info);
            }
        },
        ToplevelUpdateV::Remove(h) => {
            assert forall|x: u64|
                contains_handle(remove_handle(s, h), x) <==> (contains_handle(s, x) && x
                    != h) by {
                lemma_remove_handle_membership(s, h, x);
            }
        },
    }
}

/// Wholesale replacement keeps the handle set: the replacement carries the
/// same handle as what it replaces.
proof fn lemma_replace_handle_membership(s: Seq<ToplevelInfoV>, info: ToplevelInfoV)
    requires
        contains_handle(s, info.handle),
    ensures
        handle_set(replace_handle(s, info)) =~= handle_set(s),
{
    let r = replace_handle(s, info);
    assert forall|x: u64| contains_handle(r, x) implies contains_handle(s, x) by {
        let i = choose|i: int| 0 <= i < r.len() && r[i].handle == x;
        if s[i].handle == info.handle {
            let j = choose|j: int| 0 <= j < s.len() && s[j].handle == info.handle;
            assert(s[j].handle == x);
        } else {
            assert(s[i].handle == x);
        }
    }
    assert forall|x: u64| contains_handle(s, x) implies contains_handle(r, x) by {
        let i = choose|i: int| 0 <= i < s.len() && s[i].handle == x;
        assert(r[i].handle == x);
    }
}

/// For all event sequences: after applying the Add/Update/Remove updates in
/// order to an initially empty table, the table's handle set is exactly the
/// set the sequence implies, with no stale and no missing entries.
pub proof fn lemma_registry_tracks_events(evs: Seq<ToplevelUpdateV>)
    ensures
        handle_set(apply_updates(Seq::empty(), evs)) =~= implied_handles(evs),
    decreases evs.len(),
{
    if evs.len() == 0 {
        assert forall|x: u64| !contains_handle(Seq::<ToplevelInfoV>::empty(), x) by {}
    } else {
        lemma_registry_tracks_events(evs.drop_last());
        lemma_apply_update_handles(apply_updates(Seq::empty(), evs.drop_last()), evs.last());
    }
}

/// The window table. Entries are unique by handle; only the worker thread
/// mutates it.
#[derive(Debug)]
pub struct ToplevelRegistry {
    entries: Vec<ToplevelInfo>,
}

impl ToplevelRegistry {
    /// The registry as a sequence of entry models, in insertion order.
    pub closed spec fn model(self) -> Seq<ToplevelInfoV> {
        self.entries@.map_values(|e: ToplevelInfo| e@)
    }

    /// Handles are unique within the registry at any instant.
    pub open spec fn wf(self) -> bool {
        forall|i: int, j: int|
            0 <= i < j < self.model().len() ==> self.model()[i].handle != self.model()[j].handle
    }

    pub fn new() -> (r: Self)
        ensures
            r.wf(),
            r.model() == Seq::<ToplevelInfoV>::empty(),
    {
        let r = ToplevelRegistry { entries: Vec::new() };
        proof {
            assert(r.model() =~= Seq::<ToplevelInfoV>::empty());
        }
        r
    }

    pub fn len(&self) -> (r: usize)
        ensures
            r == self.model().len(),
    {
        self.entries.len()
    }

    /// Index of the entry with handle `h`, if present.
    fn find(&self, h: u64) -> (r: Option<usize>)
        ensures
            match r {
                Some(i) => i < self.model().len() && self.model()[i as int].handle == h,
                None => !contains_handle(self.model(), h),
            },
    {
        let n = self.entries.len();
        let mut i: usize = 0;
        while i < n
            invariant
                i <= n,
                n == self.model().len(),
                forall|j: int| 0 <= j < i ==> self.model()[j].handle != h,
            decreases n - i,
        {
            if self.entries[i].handle.id == h {
                return Some(i);
            }
            i = i + 1;
        }
        None
    }

    pub fn contains(&self, h: ToplevelHandle) -> (r: bool)
        ensures
            r == contains_handle(self.model(), h.id),
    {
        match self.find(h.id) {
            Some(_) => true,
            None => false,
        }
    }

    /// Current metadata for `h`, if the window is present.
    pub fn get(&self, h: ToplevelHandle) -> (r: Option<&ToplevelInfo>)
        ensures
            match r {
                Some(e) => e@.handle == h.id && contains_handle(self.model(), h.id) && exists|
                    i: int,
                |
                    0 <= i < self.model().len() && self.model()[i] == e@,
                None => !contains_handle(self.model(), h.id),
            },
    {
        match self.find(h.id) {
            Some(i) => Some(&self.entries[i]),
            None => None,
        }
    }

    /// Insert `info`, replacing a same-handle entry if one is present.
    pub fn insert(&mut self, info: ToplevelInfo)
        requires
            old(self).wf(),
        ensures
            final(self).wf(),
            final(self).model() == apply_update(old(self).model(), ToplevelUpdateV::Add(info@)),
    {
        let ghost old_model = self.model();
        match self.find(info.handle.id) {
            Some(i) => {
                self.entries.set(i, info);
                proof {
                    assert(self.model() =~= replace_handle(old_model, info@));
                }
            },
            None => {
                self.entries.push(info);
                proof {
                    assert(self.model() =~= old_model.push(info@));
                    assert forall|i: int, j: int| 0 <= i < j < self.model().len() implies self
                        .model()[i].handle != self.model()[j].handle by {
                        if j == self.model().len() - 1 {
                            assert(!contains_handle(old_model, info@.handle));
                            assert(old_model[i].handle != info@.handle);
                        }
                    }
                }
            },
        }
    }

    /// Replace the entry with `info`'s handle wholesale; no effect when the
    /// window is not present. Says whether it was.
    pub fn update(&mut self, info: ToplevelInfo) -> (r: bool)
        requires
            old(self).wf(),
        ensures
            final(self).wf(),
            final(self).model() == apply_update(old(self).model(), ToplevelUpdateV::Update(info@)),
            r == contains_handle(old(self).model(), info@.handle),
    {
        let ghost old_model = self.model();
        match self.find(info.handle.id) {
            Some(i) => {
                self.entries.set(i, info);
                proof {
                    assert(self.model() =~= replace_handle(old_model, info@));
                }
                true
            },
            None => false,
        }
    }

    /// Erase the entry with handle `h`, if any.
    pub fn remove(&mut self, h: ToplevelHandle)
        requires
            old(self).wf(),
        ensures
            final(self).wf(),
            final(self).model() == apply_update(old(self).model(), ToplevelUpdateV::Remove(h.id)),
    {
        let ghost old_model = self.model();
        let n = self.entries.len();
        let mut out: Vec<ToplevelInfo> = Vec::new();
        let mut i: usize = 0;
        while i < n
            invariant
                i <= n,
                n == old_model.len(),
                self.entries@.map_values(|e: ToplevelInfo| e@) == old_model,
                out@.map_values(|e: ToplevelInfo| e@) == remove_handle(
                    old_model.take(i as int),
                    h.id,
                ),
            decreases n - i,
        {
            let ghost prefix = old_model.take(i as int);
            let ghost next_prefix = old_model.take(i as int + 1);
            proof {
                assert(next_prefix.drop_last() =~= prefix);
                assert(next_prefix.last() == old_model[i as int]);
            }
            if self.entries[i].handle.id != h.id {
                let e = self.entries[i].clone();
                out.push(e);
                proof {
                    assert(out@.map_values(|e: ToplevelInfo| e@) =~= remove_handle(
                        prefix,
                        h.id,
                    ).push(old_model[i as int]));
                }
            }
            i = i + 1;
        }
        proof {
            assert(old_model.take(n as int) =~= old_model);
        }
        self.entries = out;
        proof {
            lemma_remove_handle_wf(old_model, h.id);
        }
    }
}

/// Removal of a handle keeps uniqueness of the remaining handles.
proof fn lemma_remove_handle_wf(s: Seq<ToplevelInfoV>, h: u64)
    requires
        forall|i: int, j: int| 0 <= i < j < s.len() ==> s[i].handle != s[j].handle,
    ensures
        forall|i: int, j: int|
            0 <= i < j < remove_handle(s, h).len() ==> remove_handle(s, h)[i].handle
                != remove_handle(s, h)[j].handle,
    decreases s.len(),
{
    if s.len() > 0 {
        lemma_remove_handle_wf(s.drop_last(), h);
        if s.last().handle != h {
            let r = remove_handle(s, h);
            let rp = remove_handle(s.drop_last(), h);
            assert forall|i: int, j: int| 0 <= i < j < r.len() implies r[i].handle
                != r[j].handle by {
                if j == r.len() - 1 {
                    assert(r[i] == rp[i]);
                    lemma_remove_handle_membership_elem(s.drop_last(), h, i);
                    let k = choose|k: int|
                        0 <= k < s.drop_last().len() && s.drop_last()[k] == rp[i];
                    assert(s[k] == rp[i]);
                    assert(s[k].handle != s.last().handle);
                }
            }
        }
    }
}

/// Every element the removal keeps stands somewhere in the original.
proof fn lemma_remove_handle_membership_elem(s: Seq<ToplevelInfoV>, h: u64, i: int)
    requires
        0 <= i < remove_handle(s, h).len(),
    ensures
        exists|j: int| 0 <= j < s.len() && s[j] == remove_handle(s, h)[i],
    decreases s.len(),
{
    if s.len() > 0 {
        let r = remove_handle(s, h);
        if s.last().handle == h {
            lemma_remove_handle_membership_elem(s.drop_last(), h, i);
            let j = choose|j: int|
                0 <= j < s.drop_last().len() && s.drop_last()[j] == remove_handle(
                    s.drop_last(),
                    h,
                )[i];
            assert(s[j] == r[i]);
        } else {
            if i < r.len() - 1 {
                lemma_remove_handle_membership_elem(s.drop_last(), h, i);
                let j = choose|j: int|
                    0 <= j < s.drop_last().len() && s.drop_last()[j] == remove_handle(
                        s.drop_last(),
                        h,
                    )[i];
                assert(s[j] == r[i]);
            } else {
                assert(s[s.len() - 1] == r[i]);
            }
        }
    }
}

} // verus!
