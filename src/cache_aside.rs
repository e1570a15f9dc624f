use vstd::prelude::*;
use crate::cache::Cache;
use crate::cache::CacheKey;
use crate::cache::full_key;
use crate::repository::Repository;
use crate::repository::ServiceError;

verus! {

/// An entry of the key-value store: its value, and the instant at which it expires,
/// where an expiry was applied.
pub struct Stored<V> {
    pub value: V,
    pub expires_at: Option<int>,
}

/// What the store's `get` returns at instant `now`: the entry's value, unless there is
/// none or it has expired.
pub open spec fn store_get<V>(m: Map<Seq<char>, Stored<V>>, key: Seq<char>, now: int) -> Option<V> {
    if m.contains_key(key) && (m[key].expires_at matches Some(t) ==> now < t) {
        Some(m[key].value)
    } else {
        None
    }
}

/// The store after a `set` at instant `now` followed, where `ttl` is given, by an
/// `expire` of that many seconds.
pub open spec fn store_set<V>(
    m: Map<Seq<char>, Stored<V>>,
    key: Seq<char>,
    value: V,
    ttl: Option<usize>,
    now: int,
) -> Map<Seq<char>, Stored<V>> {
    m.insert(
        key,
        Stored {
            value,
            expires_at: match ttl {
                Some(t) => Some(now + t),
                None => None,
            },
        },
    )
}

/// A typed cache's `get`: the store's `get` at the cache's full key.
pub open spec fn cache_get<D: CacheKey, T, C: Cache<D, T>>(m: Map<Seq<char>, Stored<T>>, key: D, now: int) -> Option<T> {
    store_get(m, full_key(key.key_view(), C::namespace()), now)
}

/// A typed cache's `set`: a write at the cache's full key with the cache's expiry for the key.
pub open spec fn cache_set<D: CacheKey, T, C: Cache<D, T>>(
    m: Map<Seq<char>, Stored<T>>,
    key: D,
    value: T,
    now: int,
) -> Map<Seq<char>, Stored<T>> {
    store_set(m, full_key(key.key_view(), C::namespace()), value, C::expiry(&key), now)
}

/// A key that was never written reads as a miss.
pub proof fn lemma_cold_cache<D: CacheKey, T, C: Cache<D, T>>(m: Map<Seq<char>, Stored<T>>, key: D, now: int)
    requires
        !m.contains_key(full_key(key.key_view(), C::namespace())),
    ensures
        cache_get::<D, T, C>(m, key, now) is None,
{
}

/// After a write, a read of the same key gives the written value back until the
/// cache's expiry for that key has elapsed.
pub proof fn lemma_round_trip<D: CacheKey, T, C: Cache<D, T>>(
    m: Map<Seq<char>, Stored<T>>,
    key: D,
    value: T,
    now: int,
    later: int,
)
    requires
        now <= later,
        C::expiry(&key) matches Some(t) ==> later < now + t,
    ensures
        cache_get::<D, T, C>(cache_set::<D, T, C>(m, key, value, now), key, later) == Some(value),
{
}

/// Where a cache-aside read stands: it reads the cache, fetches upstream, writes the
/// fetched values back, or is over.
#[derive(PartialEq, Eq, Structural, Clone, Copy, Debug)]
pub enum AsidePhase {
    ReadCache,
    Fetch,
    WriteBack,
    Done,
    Failed,
}

/// The phase after the cache read: a hit is served, a miss is fetched.
pub open spec fn after_read(hit: bool) -> AsidePhase {
    if hit { AsidePhase::Done } else { AsidePhase::Fetch }
}

/// The phase after the fetch: values are written back, a failure ends the read.
pub open spec fn after_fetch(fetched: bool) -> AsidePhase {
    if fetched { AsidePhase::WriteBack } else { AsidePhase::Failed }
}

/// One cache-aside read of a collection. The caller performs what `phase` names and
/// reports the outcome through the matching `on_` method, until the phase is `Done`
/// or `Failed`.
pub struct CacheAside<T> {
    pub phase: AsidePhase,
    pub values: Vec<T>,
    pub error: Option<ServiceError>,
}

impl<T> CacheAside<T> {
    pub fn new() -> (r: Self)
        ensures
            r.phase == AsidePhase::ReadCache,
            r.values@ == Seq::<T>::empty(),
            r.error is None,
    {
        CacheAside { phase: AsidePhase::ReadCache, values: Vec::new(), error: None }
    }

    /// The cache read gave `cached`: what a hit serves, or `None` for a miss.
    pub fn on_cached(&mut self, cached: Option<Vec<T>>)
        requires
            old(self).phase == AsidePhase::ReadCache,
        ensures
            final(self).phase == after_read(cached is Some),
            cached matches Some(v) ==> final(self).values@ == v@,
            cached is None ==> final(self).values == old(self).values,
            final(self).error == old(self).error,
    {
        match cached {
            Some(v) => {
                self.values = v;
                self.phase = AsidePhase::Done;
            },
            None => {
                self.phase = AsidePhase::Fetch;
            },
        }
    }

    /// The upstream fetch gave `fetched`.
    pub fn on_fetched(&mut self, fetched: Result<Vec<T>, ServiceError>)
        requires
            old(self).phase == AsidePhase::Fetch,
        ensures
            final(self).phase == after_fetch(fetched is Ok),
            fetched matches Ok(v) ==> final(self).values@ == v@ && final(self).error == old(self).error,
            fetched matches Err(e) ==> final(self).error == Some(e) && final(self).values == old(self).values,
    {
        match fetched {
            Ok(v) => {
                self.values = v;
                self.phase = AsidePhase::WriteBack;
            },
            Err(e) => {
                self.error = Some(e);
                self.phase = AsidePhase::Failed;
            },
        }
    }

    /// The write-back is over; whether it succeeded does not change what is served.
    pub fn on_written(&mut self, written: bool)
        requires
            old(self).phase == AsidePhase::WriteBack,
        ensures
            final(self).phase == AsidePhase::Done,
            final(self).values == old(self).values,
            final(self).error == old(self).error,
    {
        self.phase = AsidePhase::Done;
    }

    /// The outcome: the values served, or the fetch's failure.
    pub fn finish(self) -> (r: Result<Vec<T>, ServiceError>)
        requires
            self.phase == AsidePhase::Done || (self.phase == AsidePhase::Failed && self.error is Some),
        ensures
            self.phase == AsidePhase::Done ==> r is Ok && r->Ok_0@ == self.values@,
            self.phase == AsidePhase::Failed ==> r == Err::<Vec<T>, ServiceError>(self.error->0),
    {
        if self.phase == AsidePhase::Done {
            Ok(self.values)
        } else {
            match self.error {
                Some(e) => Err(e),
                None => Ok(self.values),
            }
        }
    }
}

/// Cache-aside: a hit is served without an upstream fetch; a miss fetches; a fetched
/// collection is written back under the repository's key with its expiry, and a later
/// read within that expiry hits, so it fetches no second time.
pub proof fn lemma_cache_aside<D, F, R: Repository<D, F>>(
    m: Map<Seq<char>, Stored<Seq<D>>>,
    f: &F,
    fetched: Seq<D>,
    now: int,
    later: int,
)
    requires
        now <= later,
        R::store_expiry(f) matches Some(t) ==> later < now + t,
    ensures
        after_read(true) != AsidePhase::Fetch,
        after_read(false) == AsidePhase::Fetch,
        after_fetch(true) == AsidePhase::WriteBack,
        store_get(store_set(m, R::store_key(f), fetched, R::store_expiry(f), now), R::store_key(f), later)
            == Some(fetched),
        after_read(
            store_get(store_set(m, R::store_key(f), fetched, R::store_expiry(f), now), R::store_key(f), later) is Some,
        ) == AsidePhase::Done,
{
}

} // verus!
