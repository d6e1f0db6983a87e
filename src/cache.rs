use crate::filter::strings_view;
use vstd::prelude::*;

verus! {

/// One hour, in seconds: the default time-to-live of the candidate set.
pub const HOUR: u32 = 60 * 60;

/// The candidate URLs of the last refresh, with the monotonic time (in
/// seconds) at which they were stored and how long they stay fresh.
#[derive(Debug)]
pub struct Cache {
    pub creation_time: u64,
    pub ttl: u64,
    pub instances: Vec<String>,
}

pub struct CacheView {
    pub instances: Seq<Seq<char>>,
    pub creation_time: u64,
    pub ttl: u64,
}

impl View for Cache {
    type V = CacheView;

    open spec fn view(&self) -> CacheView {
        CacheView {
            instances: strings_view(self.instances@),
            creation_time: self.creation_time,
            ttl: self.ttl,
        }
    }
}

/// Seconds from `created` to `now`; a clock reading before `created` counts
/// as no time at all.
pub open spec fn elapsed(created: u64, now: u64) -> int {
    if now >= created {
        now - created
    } else {
        0
    }
}

pub open spec fn ttl_exceeded_at(c: CacheView, now: u64) -> bool {
    elapsed(c.creation_time, now) > c.ttl
}

pub open spec fn refresh_due(c: CacheView, now: u64) -> bool {
    c.instances.len() == 0 || ttl_exceeded_at(c, now)
}

/// Whether more than `ttl` seconds have passed since the cache was filled.
pub fn ttl_exceeded(cache: &Cache, now: u64) -> (r: bool)
    ensures
        r == ttl_exceeded_at(cache@, now),
{
    let elapsed: u64 = if now >= cache.creation_time {
        now - cache.creation_time
    } else {
        0
    };
    elapsed > cache.ttl
}

impl Cache {
    /// An empty cache, so that the first request refreshes it.
    pub fn new(ttl: u64, now: u64) -> (r: Cache)
        ensures
            r@ == (CacheView { instances: Seq::empty(), creation_time: now, ttl }),
    {
        let r = Cache { creation_time: now, ttl, instances: Vec::new() };
        assert(r@.instances =~= Seq::<Seq<char>>::empty());
        r
    }

    /// Due when there is no candidate, or when the candidates are older
    /// than the time-to-live.
    pub fn is_refresh_due(&self, now: u64) -> (r: bool)
        ensures
            r == refresh_due(self@, now),
    {
        self.instances.len() == 0 || ttl_exceeded(self, now)
    }

    /// Replaces the candidates and their timestamp together: nothing of the
    /// previous pair remains.
    pub fn refresh(&mut self, urls: Vec<String>, now: u64)
        ensures
            final(self)@ == (CacheView {
                instances: strings_view(urls@),
                creation_time: now,
                ttl: old(self).ttl,
            }),
    {
        self.instances = urls;
        self.creation_time = now;
    }
}

} // verus!
