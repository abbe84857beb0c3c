//! Window geometry bookkeeping keyed by title, with the fuzzy title
//! matching the launcher uses to pair a search result with a window.

use crate::strutil::{contains_seq, contains_str, lower_of, lowercase, str_eq};
use vstd::prelude::*;

verus! {

/// Model of a [`WindowGeometry`].
pub struct WindowGeometryV {
    pub x: i32,
    pub y: i32,
    pub width: u32,
    pub height: u32,
    pub title: Seq<char>,
}

/// Position and size of one window, under the title it was reported with.
#[derive(Debug)]
pub struct WindowGeometry {
    pub x: i32,
    pub y: i32,
    pub width: u32,
    pub height: u32,
    pub title: String,
}

impl View for WindowGeometry {
    type V = WindowGeometryV;

    open spec fn view(&self) -> WindowGeometryV {
        WindowGeometryV {
            x: self.x,
            y: self.y,
            width: self.width,
            height: self.height,
            title: self.title@,
        }
    }
}

impl Clone for WindowGeometry {
    fn clone(&self) -> (r: Self)
        ensures
            r@ == self@,
    {
        WindowGeometry {
            x: self.x,
            y: self.y,
            width: self.width,
            height: self.height,
            title: self.title.clone(),
        }
    }
}

/// Application-specific pairing of lowercased titles: a handful of well
/// known applications match when both sides name them.
pub open spec fn app_specific_spec(target: Seq<char>, window: Seq<char>) -> bool {
    ||| (contains_seq(target, "discord"@) && contains_seq(window, "discord"@))
    ||| (contains_seq(target, "firefox"@) && (contains_seq(window, "firefox"@) || contains_seq(
        window,
        "mozilla"@,
    )))
    ||| (contains_seq(target, "terminal"@) && contains_seq(window, "terminal"@))
    ||| (contains_seq(target, "files"@) && contains_seq(window, "files"@))
    ||| (contains_seq(target, "mattermost"@) && contains_seq(window, "mattermost"@))
}

/// Fuzzy title match: after lowercasing, one title contains the other, or
/// the application-specific pairing applies.
pub open spec fn titles_match_spec(target: Seq<char>, window: Seq<char>) -> bool {
    ||| contains_seq(lower_of(window), lower_of(target))
    ||| contains_seq(lower_of(target), lower_of(window))
    ||| app_specific_spec(lower_of(target), lower_of(window))
}

/// Some entry of `s` carries exactly this title.
pub open spec fn contains_title(s: Seq<WindowGeometryV>, title: Seq<char>) -> bool {
    exists|i: int| 0 <= i < s.len() && s[i].title == title
}

/// Every entry with the new geometry's title replaced by it, others kept.
pub open spec fn replace_title(s: Seq<WindowGeometryV>, g: WindowGeometryV) -> Seq<
    WindowGeometryV,
> {
    s.map_values(
        |e: WindowGeometryV|
            if e.title == g.title {
                g
            } else {
                e
            },
    )
}

/// The geometry table the launcher keeps per window title.
#[derive(Debug)]
pub struct CosmicWindowManager {
    window_geometries: Vec<WindowGeometry>,
}

impl CosmicWindowManager {
    /// The table as a sequence of entry models, in insertion order.
    pub closed spec fn model(self) -> Seq<WindowGeometryV> {
        self.window_geometries@.map_values(|e: WindowGeometry| e@)
    }

    /// Titles are unique within the table.
    pub open spec fn wf(self) -> bool {
        forall|i: int, j: int|
            0 <= i < j < self.model().len() ==> self.model()[i].title != self.model()[j].title
    }

    pub fn new() -> (r: Self)
        ensures
            r.wf(),
            r.model() == Seq::<WindowGeometryV>::empty(),
    {
        let r = CosmicWindowManager { window_geometries: Vec::new() };
        proof {
            assert(r.model() =~= Seq::<WindowGeometryV>::empty());
        }
        r
    }

    /// Whether `target` pairs with the window titled `window_title`: after
    /// lowercasing, either contains the other, or an application-specific
    /// pairing applies.
    pub fn titles_match(&self, target: &str, window_title: &str) -> (r: bool)
        ensures
            r == titles_match_spec(target@, window_title@),
    {
        let target_lower = lowercase(target);
        let window_lower = lowercase(window_title);
        contains_str(window_lower.as_str(), target_lower.as_str()) || contains_str(
            target_lower.as_str(),
            window_lower.as_str(),
        ) || self.app_specific_matches(target_lower.as_str(), window_lower.as_str())
    }

    /// Application-specific pairing on already lowercased titles.
    pub fn app_specific_matches(&self, target: &str, window_title: &str) -> (r: bool)
        ensures
            r == app_specific_spec(target@, window_title@),
    {
        (contains_str(target, "discord") && contains_str(window_title, "discord")) || (
        contains_str(target, "firefox") && (contains_str(window_title, "firefox") || contains_str(
            window_title,
            "mozilla",
        ))) || (contains_str(target, "terminal") && contains_str(window_title, "terminal")) || (
        contains_str(target, "files") && contains_str(window_title, "files")) || (contains_str(
            target,
            "mattermost",
        ) && contains_str(window_title, "mattermost"))
    }

    /// Geometry for `title`: an entry under exactly this title when there is
    /// one, else some entry whose title matches fuzzily, else nothing.
    pub fn get_window_geometry(&self, title: &str) -> (r: Option<&WindowGeometry>)
        ensures
            match r {
                Some(g) => exists|i: int|
                    0 <= i < self.model().len() && self.model()[i] == g@ && (g@.title == title@
                        || titles_match_spec(title@, g@.title)),
                None => forall|i: int|
                    0 <= i < self.model().len() ==> self.model()[i].title != title@
                        && !titles_match_spec(title@, self.model()[i].title),
            },
            contains_title(self.model(), title@) ==> r is Some && r->Some_0@.title == title@,
    {
        let n = self.window_geometries.len();
        let mut i: usize = 0;
        while i < n
            invariant
                i <= n,
                n == self.model().len(),
                forall|j: int| 0 <= j < i ==> self.model()[j].title != title@,
            decreases n - i,
        {
            if str_eq(self.window_geometries[i].title.as_str(), title) {
                proof {
                    assert(self.model()[i as int] == self.window_geometries@[i as int]@);
                }
                return Some(&self.window_geometries[i]);
            }
            i = i + 1;
        }
        let mut k: usize = 0;
        while k < n
            invariant
                k <= n,
                n == self.model().len(),
                forall|j: int| 0 <= j < n ==> self.model()[j].title != title@,
                forall|j: int| 0 <= j < k ==> !titles_match_spec(title@, self.model()[j].title),
            decreases n - k,
        {
            if self.titles_match(title, self.window_geometries[k].title.as_str()) {
                proof {
                    assert(self.model()[k as int] == self.window_geometries@[k as int]@);
                }
                return Some(&self.window_geometries[k]);
            }
            k = k + 1;
        }
        None
    }

    /// Record the geometry reported for `title`, replacing any entry that
    /// title already has.
    pub fn update_window_geometry(&mut self, title: String, x: i32, y: i32, width: u32, height: u32)
        requires
            old(self).wf(),
        ensures
            final (self).wf(),
            ({
                let g = WindowGeometryV { x, y, width, height, title: title@ };
                if contains_title(old(self).model(), title@) {
                    final (self).model() == replace_title(old(self).model(), g)
                } else {
                    final (self).model() == old(self).model().push(g)
                }
            }),
    {
        let geometry = WindowGeometry { x, y, width, height, title };
        let ghost old_model = self.model();
        let n = self.window_geometries.len();
        let mut i: usize = 0;
        while i < n
            invariant
                i <= n,
                n == self.model().len(),
                old_model == old(self).model(),
                self.model() == old_model,
                self.wf(),
                geometry@ == (WindowGeometryV { x, y, width, height, title: title@ }),
                forall|j: int| 0 <= j < i ==> self.model()[j].title != geometry.title@,
            decreases n - i,
        {
            if str_eq(self.window_geometries[i].title.as_str(), geometry.title.as_str()) {
                let ghost g = geometry@;
                proof {
                    assert(old_model[i as int].title == g.title);
                    assert(contains_title(old_model, g.title));
                }
                self.window_geometries.set(i, geometry);
                proof {
                    assert forall|j: int|
                        0 <= j < old_model.len() && j != i implies old_model[j].title
                        != g.title by {
                        assert(old_model[i as int].title == g.title);
                    }
                    assert(self.model() =~= replace_title(old_model, g));
                    assert forall|a: int, b: int|
                        0 <= a < b < self.model().len() implies self.model()[a].title != self
                        .model()[b].title by {
                        assert(self.model()[a].title == old_model[a].title);
                        assert(self.model()[b].title == old_model[b].title);
                    }
                }
                return ;
            }
            i = i + 1;
        }
        proof {
            assert(!contains_title(old_model, geometry@.title));
        }
        self.window_geometries.push(geometry);
        proof {
            assert(self.model() =~= old_model.push(geometry@));
            assert forall|a: int, b: int| 0 <= a < b < self.model().len() implies self.model()[a]
                .title != self.model()[b].title by {
                if b == self.model().len() - 1 {
                    assert(old_model[a].title != geometry@.title);
                }
            }
        }
    }

    /// Every known geometry, in insertion order.
    pub fn list_known_windows(&self) -> (r: Vec<&WindowGeometry>)
        ensures
            r@.len() == self.model().len(),
            forall|i: int| 0 <= i < r@.len() ==> r@[i]@ == self.model()[i],
    {
        let n = self.window_geometries.len();
        let mut out: Vec<&WindowGeometry> = Vec::new();
        let mut i: usize = 0;
        while i < n
            invariant
                i <= n,
                n == self.model().len(),
                out@.len() == i,
                forall|j: int| 0 <= j < i ==> out@[j]@ == self.model()[j],
            decreases n - i,
        {
            out.push(&self.window_geometries[i]);
            i = i + 1;
        }
        out
    }

    /// Forget every geometry.
    pub fn clear(&mut self)
        ensures
            final (self).wf(),
            final (self).model() == Seq::<WindowGeometryV>::empty(),
    {
        self.window_geometries = Vec::new();
        proof {
            assert(self.model() =~= Seq::<WindowGeometryV>::empty());
        }
    }
}

} // verus!
