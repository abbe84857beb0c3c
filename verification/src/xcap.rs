//! The screenshot cache the launcher keeps per window identifier, with its
//! freshness and eviction policy. Capturing itself talks to the display
//! server; the caller performs it and hands the result in, and this module
//! decides what is cached, what is served and what is evicted. Time enters
//! as a millisecond tick the caller reads from its clock.

use crate::strutil::str_eq;
use vstd::prelude::*;

verus! {

/// Model of an [`XcapScreenshot`].
pub struct XcapScreenshotV {
    pub window_id: Seq<char>,
    pub image_data: Seq<u8>,
    pub width: u32,
    pub height: u32,
    pub timestamp: u64,
}

/// One cached screenshot: encoded image bytes under the identifier of the
/// window they show, stamped with the tick they were taken at.
#[derive(Debug)]
pub struct XcapScreenshot {
    pub window_id: String,
    pub image_data: Vec<u8>,
    pub width: u32,
    pub height: u32,
    pub timestamp: u64,
}

impl View for XcapScreenshot {
    type V = XcapScreenshotV;

    open spec fn view(&self) -> XcapScreenshotV {
        XcapScreenshotV {
            window_id: self.window_id@,
            image_data: self.image_data@,
            width: self.width,
            height: self.height,
            timestamp: self.timestamp,
        }
    }
}

impl Clone for XcapScreenshot {
    fn clone(&self) -> (r: Self)
        ensures
            r@ == self@,
    {
        XcapScreenshot {
            window_id: self.window_id.clone(),
            image_data: self.image_data.clone(),
            width: self.width,
            height: self.height,
            timestamp: self.timestamp,
        }
    }
}

/// Why a screenshot could not be produced.
#[derive(Debug, Clone, Copy, PartialEq, Eq, Structural)]
pub enum CaptureError {
    CaptureFailed,
}

/// How old a timestamp is at tick `now`; a stamp from the future counts as
/// brand new.
pub open spec fn age(now: u64, ts: u64) -> int {
    if now >= ts {
        now - ts
    } else {
        0
    }
}

/// A cache entry still serves at tick `now` under time-to-live `ttl`.
pub open spec fn entry_fresh(e: XcapScreenshotV, now: u64, ttl: u64) -> bool {
    age(now, e.timestamp) <= ttl
}

/// Some entry of `s` carries this window identifier.
pub open spec fn contains_id(s: Seq<XcapScreenshotV>, id: Seq<char>) -> bool {
    exists|i: int| 0 <= i < s.len() && s[i].window_id == id
}

/// Every entry under `e`'s identifier replaced by `e`, others kept.
pub open spec fn replace_id(s: Seq<XcapScreenshotV>, e: XcapScreenshotV) -> Seq<XcapScreenshotV> {
    s.map_values(
        |x: XcapScreenshotV|
            if x.window_id == e.window_id {
                e
            } else {
                x
            },
    )
}

/// Store `e`: replace the entry under its identifier, or append.
pub open spec fn put_entry_spec(s: Seq<XcapScreenshotV>, e: XcapScreenshotV) -> Seq<
    XcapScreenshotV,
> {
    if contains_id(s, e.window_id) {
        replace_id(s, e)
    } else {
        s.push(e)
    }
}

/// The entries still fresh at tick `now`, in order.
pub open spec fn keep_fresh(s: Seq<XcapScreenshotV>, now: u64, ttl: u64) -> Seq<XcapScreenshotV>
    decreases s.len(),
{
    if s.len() == 0 {
        Seq::empty()
    } else if entry_fresh(s.last(), now, ttl) {
        keep_fresh(s.drop_last(), now, ttl).push(s.last())
    } else {
        keep_fresh(s.drop_last(), now, ttl)
    }
}

/// First index of a minimal timestamp: the oldest entry, earliest first on
/// ties.
pub open spec fn min_ts_index(s: Seq<XcapScreenshotV>) -> int
    decreases s.len(),
{
    if s.len() <= 1 {
        0
    } else {
        let r = min_ts_index(s.drop_last());
        if s.last().timestamp < s[r].timestamp {
            s.len() - 1
        } else {
            r
        }
    }
}

/// The cleanup pass: stale entries go; if the survivors still fill the
/// cache, the oldest of them goes too.
pub open spec fn cleaned(s: Seq<XcapScreenshotV>, now: u64, ttl: u64, max: int) -> Seq<
    XcapScreenshotV,
> {
    let f = keep_fresh(s, now, ttl);
    if f.len() >= max && f.len() > 0 {
        f.remove(min_ts_index(f))
    } else {
        f
    }
}

/// The screenshot cache: entries unique by window identifier, bounded in
/// count, each serving for a limited time.
#[derive(Debug)]
pub struct XcapManager {
    cache: Vec<XcapScreenshot>,
    max_cache_size: usize,
    cache_ttl: u64,
}

impl XcapManager {
    /// The cache as a sequence of entry models, in insertion order.
    pub closed spec fn model(self) -> Seq<XcapScreenshotV> {
        self.cache@.map_values(|e: XcapScreenshot| e@)
    }

    /// Entry cap of the cache.
    pub closed spec fn max_size(self) -> int {
        self.max_cache_size as int
    }

    /// Time-to-live of an entry, in the caller's millisecond ticks.
    pub closed spec fn ttl(self) -> u64 {
        self.cache_ttl
    }

    /// Window identifiers are unique within the cache.
    pub open spec fn wf(self) -> bool {
        forall|i: int, j: int|
            0 <= i < j < self.model().len() ==> self.model()[i].window_id
                != self.model()[j].window_id
    }

    pub fn new() -> (r: Self)
        ensures
            r.wf(),
            r.model() == Seq::<XcapScreenshotV>::empty(),
            r.max_size() == 20,
            r.ttl() == 5000,
    {
        let r = XcapManager { cache: Vec::new(), max_cache_size: 20, cache_ttl: 5000 };
        proof {
            assert(r.model() =~= Seq::<XcapScreenshotV>::empty());
        }
        r
    }

    pub fn with_cache_size(self, size: usize) -> (r: Self)
        ensures
            r.model() == self.model(),
            r.max_size() == size,
            r.ttl() == self.ttl(),
    {
        XcapManager { max_cache_size: size, ..self }
    }

    pub fn with_cache_ttl(self, ttl: u64) -> (r: Self)
        ensures
            r.model() == self.model(),
            r.max_size() == self.max_size(),
            r.ttl() == ttl,
    {
        XcapManager { cache_ttl: ttl, ..self }
    }

    /// The cached screenshot for `window_id`, if one is present and still
    /// fresh at tick `now`; a stale entry serves nothing.
    pub fn get_cached_screenshot(&self, window_id: &str, now: u64) -> (r: Option<&XcapScreenshot>)
        requires
            self.wf(),
        ensures
            match r {
                Some(s) => s@.window_id == window_id@ && entry_fresh(s@, now, self.ttl())
                    && exists|i: int| 0 <= i < self.model().len() && self.model()[i] == s@,
                None => forall|i: int|
                    0 <= i < self.model().len() && self.model()[i].window_id == window_id@
                        ==> !entry_fresh(self.model()[i], now, self.ttl()),
            },
    {
        let n = self.cache.len();
        let mut i: usize = 0;
        while i < n
            invariant
                i <= n,
                n == self.model().len(),
                self.wf(),
                forall|j: int| 0 <= j < i ==> self.model()[j].window_id != window_id@,
            decreases n - i,
        {
            if str_eq(self.cache[i].window_id.as_str(), window_id) {
                let entry = &self.cache[i];
                let entry_age: u64 = if now >= entry.timestamp {
                    now - entry.timestamp
                } else {
                    0
                };
                proof {
                    assert(self.model()[i as int] == self.cache@[i as int]@);
                }
                if entry_age <= self.cache_ttl {
                    return Some(entry);
                } else {
                    proof {
                        assert forall|j: int|
                            0 <= j < self.model().len() && self.model()[j].window_id
                                == window_id@ implies !entry_fresh(
                            self.model()[j],
                            now,
                            self.ttl(),
                        ) by {
                            if j != i {
                                assert(self.model()[i as int].window_id == window_id@);
                            }
                        }
                    }
                    return None;
                }
            }
            i = i + 1;
        }
        None
    }

    /// Drop every stale entry; if the cache is still at or over its cap,
    /// drop the oldest surviving entry as well.
    #[verifier::rlimit(60)]
    fn cleanup_old_cache(&mut self, now: u64)
        requires
            old(self).wf(),
        ensures
            final (self).wf(),
            final (self).model() == cleaned(
                old(self).model(),
                now,
                old(self).ttl(),
                old(self).max_size(),
            ),
            final (self).max_size() == old(self).max_size(),
            final (self).ttl() == old(self).ttl(),
    {
        let ghost old_model = self.model();
        let n = self.cache.len();
        let mut kept: Vec<XcapScreenshot> = Vec::new();
        let mut i: usize = 0;
        while i < n
            invariant
                i <= n,
                n == old_model.len(),
                old_model == old(self).model(),
                self == old(self),
                kept@.map_values(|e: XcapScreenshot| e@) == keep_fresh(
                    old_model.take(i as int),
                    now,
                    old(self).ttl(),
                ),
            decreases n - i,
        {
            let ghost prefix = old_model.take(i as int);
            let ghost next_prefix = old_model.take(i as int + 1);
            proof {
                assert(next_prefix.drop_last() =~= prefix);
                assert(next_prefix.last() == old_model[i as int]);
            }
            let entry_age: u64 = if now >= self.cache[i].timestamp {
                now - self.cache[i].timestamp
            } else {
                0
            };
            if entry_age <= self.cache_ttl {
                let e = self.cache[i].clone();
                kept.push(e);
                proof {
                    assert(kept@.map_values(|e: XcapScreenshot| e@) =~= keep_fresh(
                        prefix,
                        now,
                        old(self).ttl(),
                    ).push(old_model[i as int]));
                }
            }
            i = i + 1;
        }
        proof {
            assert(old_model.take(n as int) =~= old_model);
            lemma_keep_fresh_wf(old_model, now, old(self).ttl());
        }
        self.cache = kept;
        let m = self.cache.len();
        if m >= self.max_cache_size && m > 0 {
            let ghost fresh_model = self.model();
            let mut oldest: usize = 0;
            let mut k: usize = 1;
            while k < m
                invariant
                    1 <= k <= m,
                    oldest < k,
                    m == fresh_model.len(),
                    fresh_model == self.model(),
                    self.cache@.map_values(|e: XcapScreenshot| e@) == fresh_model,
                    oldest == min_ts_index(fresh_model.take(k as int)),
                decreases m - k,
            {
                let ghost pk = fresh_model.take(k as int);
                let ghost pk1 = fresh_model.take(k as int + 1);
                proof {
                    assert(pk1.drop_last() =~= pk);
                    assert(pk1.last() == fresh_model[k as int]);
                }
                if self.cache[k].timestamp < self.cache[oldest].timestamp {
                    oldest = k;
                }
                k = k + 1;
            }
            proof {
                assert(fresh_model.take(m as int) =~= fresh_model);
            }
            let _removed = self.cache.remove(oldest);
            proof {
                assert(self.model() =~= fresh_model.remove(min_ts_index(fresh_model)));
                lemma_remove_index_wf(fresh_model, min_ts_index(fresh_model));
            }
        }
    }

    /// Store `screenshot` under its window identifier, replacing what that
    /// identifier held; a cache at or over its cap is cleaned up first.
    pub fn cache_screenshot(&mut self, screenshot: XcapScreenshot, now: u64)
        requires
            old(self).wf(),
        ensures
            final (self).wf(),
            final (self).model() == put_entry_spec(
                if old(self).model().len() >= old(self).max_size() {
                    cleaned(old(self).model(), now, old(self).ttl(), old(self).max_size())
                } else {
                    old(self).model()
                },
                screenshot@,
            ),
            final (self).max_size() == old(self).max_size(),
            final (self).ttl() == old(self).ttl(),
    {
        if self.cache.len() >= self.max_cache_size {
            self.cleanup_old_cache(now);
        }
        self.put_entry(screenshot);
    }

    /// Insert or replace by window identifier.
    fn put_entry(&mut self, screenshot: XcapScreenshot)
        requires
            old(self).wf(),
        ensures
            final (self).wf(),
            final (self).model() == put_entry_spec(old(self).model(), screenshot@),
            final (self).max_size() == old(self).max_size(),
            final (self).ttl() == old(self).ttl(),
    {
        let ghost old_model = self.model();
        let n = self.cache.len();
        let mut i: usize = 0;
        while i < n
            invariant
                i <= n,
                n == self.model().len(),
                old_model == old(self).model(),
                self == old(self),
                self.wf(),
                forall|j: int| 0 <= j < i ==> self.model()[j].window_id != screenshot.window_id@,
            decreases n - i,
        {
            if str_eq(self.cache[i].window_id.as_str(), screenshot.window_id.as_str()) {
                let ghost e = screenshot@;
                proof {
                    assert(old_model[i as int].window_id == e.window_id);
                    assert(contains_id(old_model, e.window_id));
                }
                self.cache.set(i, screenshot);
                proof {
                    assert forall|j: int|
                        0 <= j < old_model.len() && j != i implies old_model[j].window_id
                        != e.window_id by {
                        assert(old_model[i as int].window_id == e.window_id);
                    }
                    assert(self.model() =~= replace_id(old_model, e));
                    assert forall|a: int, b: int|
                        0 <= a < b < self.model().len() implies self.model()[a].window_id != self
                        .model()[b].window_id by {
                        assert(self.model()[a].window_id == old_model[a].window_id);
                        assert(self.model()[b].window_id == old_model[b].window_id);
                    }
                }
                return ;
            }
            i = i + 1;
        }
        proof {
            assert(!contains_id(old_model, screenshot@.window_id));
        }
        let ghost e = screenshot@;
        self.cache.push(screenshot);
        proof {
            assert(self.model() =~= old_model.push(e));
            assert forall|a: int, b: int| 0 <= a < b < self.model().len() implies self.model()[a]
                .window_id != self.model()[b].window_id by {
                if b == self.model().len() - 1 {
                    assert(old_model[a].window_id != e.window_id);
                }
            }
        }
    }

    /// Serve the cached screenshot for `window_id` when one is fresh at tick
    /// `now`; otherwise store and return the capture the caller made for
    /// this identifier, or report that none could be made.
    pub fn get_or_capture_screenshot_by_index(
        &mut self,
        window_id: &str,
        now: u64,
        captured: Option<XcapScreenshot>,
    ) -> (r: Result<XcapScreenshot, CaptureError>)
        requires
            old(self).wf(),
        ensures
            final (self).wf(),
            final (self).max_size() == old(self).max_size(),
            final (self).ttl() == old(self).ttl(),
            (exists|i: int|
                0 <= i < old(self).model().len() && old(self).model()[i].window_id == window_id@
                    && entry_fresh(old(self).model()[i], now, old(self).ttl())) ==> {
                &&& final (self).model() == old(self).model()
                &&& r is Ok
                &&& r->Ok_0@.window_id == window_id@
                &&& entry_fresh(r->Ok_0@, now, old(self).ttl())
                &&& exists|i: int|
                    0 <= i < old(self).model().len() && old(self).model()[i] == r->Ok_0@
            },
            (forall|i: int|
                0 <= i < old(self).model().len() && old(self).model()[i].window_id == window_id@
                    ==> !entry_fresh(old(self).model()[i], now, old(self).ttl())) ==> (match
                captured {
                Some(c) => {
                    &&& r == Ok::<XcapScreenshot, CaptureError>(c)
                    &&& final (self).model() == put_entry_spec(
                        if old(self).model().len() >= old(self).max_size() {
                            cleaned(old(self).model(), now, old(self).ttl(), old(self).max_size())
                        } else {
                            old(self).model()
                        },
                        c@,
                    )
                },
                None => r == Err::<XcapScreenshot, CaptureError>(CaptureError::CaptureFailed)
                    && final (self).model() == old(self).model(),
            }),
    {
        let hit = match self.get_cached_screenshot(window_id, now) {
            Some(s) => Some(s.clone()),
            None => None,
        };
        match hit {
            Some(s) => {
                proof {
                    let w = choose|i: int|
                        0 <= i < self.model().len() && self.model()[i] == s@;
                    assert(old(self).model()[w].window_id == window_id@);
                    assert(entry_fresh(old(self).model()[w], now, old(self).ttl()));
                }
                Ok(s)
            },
            None => match captured {
                Some(c) => {
                    let stored = c.clone();
                    self.cache_screenshot(stored, now);
                    Ok(c)
                },
                None => Err(CaptureError::CaptureFailed),
            },
        }
    }

    /// Forget every cached screenshot.
    pub fn clear_cache(&mut self)
        ensures
            final (self).wf(),
            final (self).model() == Seq::<XcapScreenshotV>::empty(),
            final (self).max_size() == old(self).max_size(),
            final (self).ttl() == old(self).ttl(),
    {
        self.cache = Vec::new();
        proof {
            assert(self.model() =~= Seq::<XcapScreenshotV>::empty());
        }
    }
}

/// Freshness filtering keeps identifiers unique.
proof fn lemma_keep_fresh_wf(s: Seq<XcapScreenshotV>, now: u64, ttl: u64)
    requires
        forall|i: int, j: int| 0 <= i < j < s.len() ==> s[i].window_id != s[j].window_id,
    ensures
        forall|i: int, j: int|
            0 <= i < j < keep_fresh(s, now, ttl).len() ==> keep_fresh(s, now, ttl)[i].window_id
                != keep_fresh(s, now, ttl)[j].window_id,
    decreases s.len(),
{
    if s.len() > 0 {
        lemma_keep_fresh_wf(s.drop_last(), now, ttl);
        assert forall|a: int, b: int|
            0 <= a < b < s.drop_last().len() implies s.drop_last()[a].window_id != s.drop_last()[b]
            .window_id by {
            assert(s.drop_last()[a] == s[a]);
            assert(s.drop_last()[b] == s[b]);
        }
        let r = keep_fresh(s, now, ttl);
        let rp = keep_fresh(s.drop_last(), now, ttl);
        if entry_fresh(s.last(), now, ttl) {
            assert forall|i: int, j: int| 0 <= i < j < r.len() implies r[i].window_id
                != r[j].window_id by {
                if j == r.len() - 1 {
                    assert(r[i] == rp[i]);
                    lemma_keep_fresh_elem(s.drop_last(), now, ttl, i);
                    let k = choose|k: int|
                        0 <= k < s.drop_last().len() && s.drop_last()[k] == rp[i];
                    assert(s[k] == rp[i]);
                    assert(s[k].window_id != s.last().window_id);
                } else {
                    assert(r[i] == rp[i]);
                    assert(r[j] == rp[j]);
                    assert(rp[i].window_id != rp[j].window_id);
                }
            }
        } else {
            assert(r == rp);
            assert forall|i: int, j: int| 0 <= i < j < r.len() implies r[i].window_id
                != r[j].window_id by {
                assert(rp[i].window_id != rp[j].window_id);
            }
        }
    } else {
        assert(keep_fresh(s, now, ttl) =~= Seq::<XcapScreenshotV>::empty());
    }
}

/// Every entry the freshness filter keeps stands somewhere in the original.
proof fn lemma_keep_fresh_elem(s: Seq<XcapScreenshotV>, now: u64, ttl: u64, i: int)
    requires
        0 <= i < keep_fresh(s, now, ttl).len(),
    ensures
        exists|j: int| 0 <= j < s.len() && s[j] == keep_fresh(s, now, ttl)[i],
    decreases s.len(),
{
    if s.len() > 0 {
        let r = keep_fresh(s, now, ttl);
        if !entry_fresh(s.last(), now, ttl) {
            lemma_keep_fresh_elem(s.drop_last(), now, ttl, i);
            let j = choose|j: int|
                0 <= j < s.drop_last().len() && s.drop_last()[j] == keep_fresh(
                    s.drop_last(),
                    now,
                    ttl,
                )[i];
            assert(s[j] == r[i]);
        } else {
            if i < r.len() - 1 {
                lemma_keep_fresh_elem(s.drop_last(), now, ttl, i);
                let j = choose|j: int|
                    0 <= j < s.drop_last().len() && s.drop_last()[j] == keep_fresh(
                        s.drop_last(),
                        now,
                        ttl,
                    )[i];
                assert(s[j] == r[i]);
            } else {
                assert(s[s.len() - 1] == r[i]);
            }
        }
    }
}

/// Dropping one index keeps the remaining identifiers unique.
proof fn lemma_remove_index_wf(s: Seq<XcapScreenshotV>, at: int)
    requires
        0 <= at < s.len(),
        forall|i: int, j: int| 0 <= i < j < s.len() ==> s[i].window_id != s[j].window_id,
    ensures
        forall|i: int, j: int|
            0 <= i < j < s.remove(at).len() ==> s.remove(at)[i].window_id
                != s.remove(at)[j].window_id,
{
    let r = s.remove(at);
    assert forall|i: int, j: int| 0 <= i < j < r.len() implies r[i].window_id
        != r[j].window_id by {
        let i0 = if i < at {
            i
        } else {
            i + 1
        };
        let j0 = if j < at {
            j
        } else {
            j + 1
        };
        assert(r[i] == s[i0]);
        assert(r[j] == s[j0]);
    }
}

} // verus!
