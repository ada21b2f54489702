//! Refresh policies: whether a cached dataset is used or fetched anew.

use vstd::prelude::*;

verus! {

/// A length of time: whole seconds and a count of nanoseconds on top.
///
/// Two spans are compared by the nanoseconds they add up to, so the
/// nanosecond field need not stay below one second.
#[derive(Clone, Copy, Debug)]
pub struct TimeSpan {
    pub secs: u64,
    pub nanos: u32,
}

impl TimeSpan {
    /// The span in nanoseconds.
    pub open spec fn total_nanos(self) -> nat {
        (self.secs as nat) * 1_000_000_000 + (self.nanos as nat)
    }

    /// A span of whole seconds.
    pub fn from_secs(secs: u64) -> (span: TimeSpan)
        ensures
            span.secs == secs,
            span.nanos == 0,
            span.total_nanos() == secs * 1_000_000_000,
    {
        TimeSpan { secs, nanos: 0 }
    }

    /// Whether this span is strictly longer than `other`.
    pub fn exceeds(&self, other: &TimeSpan) -> (longer: bool)
        ensures
            longer == (self.total_nanos() > other.total_nanos()),
    {
        let mine: u128 = (self.secs as u128) * 1_000_000_000 + (self.nanos as u128);
        let theirs: u128 = (other.secs as u128) * 1_000_000_000 + (other.nanos as u128);
        mine > theirs
    }
}

/// Refresh rule of the item mapping: the cache is trusted for as long as it
/// exists, whatever its age.
pub open spec fn refresh_by_presence(cached: bool, force: bool) -> bool {
    !cached || force
}

/// Refresh rule of the price table: the cache is trusted while it exists and
/// is no older than the time to live. `age` is read only where the cache
/// exists.
pub open spec fn refresh_by_ttl(cached: bool, age: TimeSpan, ttl: TimeSpan, force: bool) -> bool {
    !cached || force || age.total_nanos() > ttl.total_nanos()
}

/// Decides whether the item mapping is fetched anew.
pub fn should_refresh_mappings(cached: bool, force: bool) -> (refresh: bool)
    ensures
        refresh == refresh_by_presence(cached, force),
{
    force || !cached
}

/// Decides whether the price table is fetched anew.
pub fn should_refresh_prices(cached: bool, age: &TimeSpan, ttl: &TimeSpan, force: bool) -> (refresh: bool)
    ensures
        refresh == refresh_by_ttl(cached, *age, *ttl, force),
{
    force || !cached || age.exceeds(ttl)
}

/// The refresh rule of a dataset.
#[derive(Clone, Copy, Debug)]
pub enum RefreshPolicy {
    /// The cache is trusted for as long as it exists.
    PresenceOnly,
    /// The cache is trusted while it is no older than the time to live.
    Ttl(TimeSpan),
}

impl RefreshPolicy {
    /// Whether the dataset is fetched anew. `age` is read only under
    /// [`RefreshPolicy::Ttl`] and where the cache exists.
    pub open spec fn refreshes(self, cached: bool, age: TimeSpan, force: bool) -> bool {
        match self {
            RefreshPolicy::PresenceOnly => refresh_by_presence(cached, force),
            RefreshPolicy::Ttl(ttl) => refresh_by_ttl(cached, age, ttl, force),
        }
    }

    /// Whether the decision hangs on the age of the cache: only under
    /// [`RefreshPolicy::Ttl`], with a cache that exists and no forced refresh.
    pub open spec fn turns_on_age(self, cached: bool, force: bool) -> bool {
        self is Ttl && cached && !force
    }

    /// Says whether the age of the cache has to be known for the decision.
    pub fn needs_age(&self, cached: bool, force: bool) -> (needed: bool)
        ensures
            needed == self.turns_on_age(cached, force),
            !needed ==> forall|a: TimeSpan, b: TimeSpan|
                self.refreshes(cached, a, force) == self.refreshes(cached, b, force),
    {
        match self {
            RefreshPolicy::PresenceOnly => false,
            RefreshPolicy::Ttl(_) => cached && !force,
        }
    }

    /// Decides whether the dataset is fetched anew.
    pub fn should_refresh(&self, cached: bool, age: &TimeSpan, force: bool) -> (refresh: bool)
        ensures
            refresh == self.refreshes(cached, *age, force),
    {
        match self {
            RefreshPolicy::PresenceOnly => should_refresh_mappings(cached, force),
            RefreshPolicy::Ttl(ttl) => should_refresh_prices(cached, age, ttl, force),
        }
    }
}

/// Without a cached mapping the mapping is always fetched, whatever the age
/// that is reported and forced or not.
pub proof fn lemma_missing_mappings_refresh(age: TimeSpan, force: bool)
    ensures
        refresh_by_presence(false, force),
        RefreshPolicy::PresenceOnly.refreshes(false, age, force),
{
}

/// A cached mapping is used as it is unless a refresh is forced, however old
/// it is.
pub proof fn lemma_cached_mappings_kept(age: TimeSpan)
    ensures
        !refresh_by_presence(true, false),
        !RefreshPolicy::PresenceOnly.refreshes(true, age, false),
{
}

/// A cached price table no older than the time to live is used as it is
/// unless a refresh is forced.
pub proof fn lemma_fresh_prices_kept(age: TimeSpan, ttl: TimeSpan)
    requires
        age.total_nanos() <= ttl.total_nanos(),
    ensures
        !refresh_by_ttl(true, age, ttl, false),
{
}

/// A price table older than the time to live is fetched anew.
pub proof fn lemma_stale_prices_refresh(cached: bool, age: TimeSpan, ttl: TimeSpan, force: bool)
    requires
        age.total_nanos() > ttl.total_nanos(),
    ensures
        refresh_by_ttl(cached, age, ttl, force),
{
}

/// A forced refresh is a refresh under both rules, whatever the cache holds.
pub proof fn lemma_force_refreshes(policy: RefreshPolicy, cached: bool, age: TimeSpan, ttl: TimeSpan)
    ensures
        refresh_by_presence(cached, true),
        refresh_by_ttl(cached, age, ttl, true),
        policy.refreshes(cached, age, true),
{
}

} // verus!
