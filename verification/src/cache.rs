//! A single-flight cache: a lazily loaded, shared value whose producing
//! load runs at most once per load cycle, however many consumers ask for
//! the value concurrently.
//!
//! The cache performs no I/O itself. [`SingleFlightCache::get_or_trigger_load`]
//! tells the one caller that found the cache uninitialized to run the load;
//! everyone else joins the flight already underway. The runner reports back
//! through [`SingleFlightCache::on_load_complete`] or
//! [`SingleFlightCache::on_load_failed`]; a failure does not poison the
//! cache — it falls back to uninitialized, or to the stale value a reload
//! set out to replace, and a later trigger may retry.

use vstd::prelude::*;

verus! {

/// The lifecycle of the cached value. A loading cache remembers the stale
/// value it is reloading, if any, to fall back to on failure.
#[derive(Debug)]
pub enum CacheState<T> {
    Uninitialized,
    Loading { stale: Option<T> },
    Ready(T),
}

/// The state after one `get_or_trigger_load` call, with whether that call
/// must run the load: only the call that finds the cache uninitialized
/// starts one.
pub open spec fn triggered<T>(s: CacheState<T>) -> (CacheState<T>, bool) {
    match s {
        CacheState::Uninitialized => (CacheState::Loading { stale: None }, true),
        _ => (s, false),
    }
}

/// A lazily loaded, cached value shared by any number of awaiters.
#[derive(Debug)]
pub struct SingleFlightCache<T> {
    state: CacheState<T>,
}

impl<T> View for SingleFlightCache<T> {
    type V = CacheState<T>;

    closed spec fn view(&self) -> CacheState<T> {
        self.state
    }
}

impl<T> SingleFlightCache<T> {
    /// A fresh cache with nothing loaded.
    pub fn new() -> (r: SingleFlightCache<T>)
        ensures
            r@ is Uninitialized,
    {
        SingleFlightCache { state: CacheState::Uninitialized }
    }

    /// Starts the load cycle if nothing is loaded or loading yet. The
    /// result tells the caller whether it is the one that must run the
    /// load; while a load is in flight or a value is ready, the call is a
    /// no-op and the caller simply awaits the shared outcome.
    pub fn get_or_trigger_load(&mut self) -> (start: bool)
        ensures
            (*final(self))@ == triggered(old(self)@).0,
            start == triggered(old(self)@).1,
    {
        match &self.state {
            CacheState::Uninitialized => {
                self.state = CacheState::Loading { stale: None };
                true
            },
            _ => false,
        }
    }

    /// Begins a reload of a ready value: the value goes stale but is kept,
    /// to fall back to if the reload fails. As with the first load, the
    /// result tells the caller whether it must run the load: a reload
    /// requested while a load is already in flight starts nothing and
    /// joins the flight underway, and reloading an uninitialized cache is
    /// the first load.
    pub fn reload(&mut self) -> (start: bool)
        ensures
            old(self)@ matches CacheState::Ready(v) ==> (*final(self))@ == (CacheState::Loading {
                stale: Some(v),
            }) && start,
            old(self)@ is Uninitialized ==> (*final(self))@ == (CacheState::Loading {
                stale: None::<T>,
            }) && start,
            old(self)@ is Loading ==> (*final(self))@ == old(self)@ && !start,
    {
        let mut state = CacheState::Uninitialized;
        std::mem::swap(&mut state, &mut self.state);
        match state {
            CacheState::Ready(v) => {
                self.state = CacheState::Loading { stale: Some(v) };
                true
            },
            CacheState::Uninitialized => {
                self.state = CacheState::Loading { stale: None };
                true
            },
            CacheState::Loading { stale } => {
                self.state = CacheState::Loading { stale };
                false
            },
        }
    }

    /// Commits the loaded value, waking every awaiter with it. Outside a
    /// load cycle there is nothing to commit and the call changes nothing.
    pub fn on_load_complete(&mut self, value: T)
        ensures
            old(self)@ is Loading ==> (*final(self))@ == CacheState::Ready(value),
            !(old(self)@ is Loading) ==> (*final(self))@ == old(self)@,
    {
        if matches!(&self.state, CacheState::Loading { .. }) {
            self.state = CacheState::Ready(value);
        }
    }

    /// Records that the load failed. The cache is not poisoned: a first
    /// load falls back to uninitialized (so a later trigger may retry) and
    /// a reload keeps the stale value it set out to replace. Outside a
    /// load cycle the call changes nothing.
    pub fn on_load_failed(&mut self)
        ensures
            old(self)@ matches CacheState::Loading { stale: Some(v) } ==> (*final(self))@
                == CacheState::Ready(v),
            old(self)@ matches CacheState::Loading { stale: None::<T> } ==> (*final(self))@
                is Uninitialized,
            !(old(self)@ is Loading) ==> (*final(self))@ == old(self)@,
    {
        let mut state = CacheState::Uninitialized;
        std::mem::swap(&mut state, &mut self.state);
        match state {
            CacheState::Loading { stale: Some(v) } => {
                self.state = CacheState::Ready(v);
            },
            CacheState::Loading { stale: None } => {
                self.state = CacheState::Uninitialized;
            },
            other => {
                self.state = other;
            },
        }
    }

    /// The cached value, once it is ready. Awaiters poll this after being
    /// woken; every one of them observes the same value.
    pub fn try_get(&self) -> (r: Option<&T>)
        ensures
            self@ matches CacheState::Ready(v) ==> (r matches Some(x) && *x == v),
            !(self@ is Ready) ==> r is None,
    {
        match &self.state {
            CacheState::Ready(v) => Some(v),
            _ => None,
        }
    }

    /// Whether a load is in flight.
    pub fn is_loading(&self) -> (r: bool)
        ensures
            r == (self@ is Loading),
    {
        matches!(&self.state, CacheState::Loading { .. })
    }
}

/// The state after `n` successive `get_or_trigger_load` calls.
pub open spec fn trigger_state<T>(s: CacheState<T>, n: nat) -> CacheState<T>
    decreases n,
{
    if n == 0 {
        s
    } else {
        trigger_state(triggered(s).0, (n - 1) as nat)
    }
}

/// How many of `n` successive `get_or_trigger_load` calls start a load.
pub open spec fn starts_in<T>(s: CacheState<T>, n: nat) -> nat
    decreases n,
{
    if n == 0 {
        0
    } else {
        (if triggered(s).1 {
            1nat
        } else {
            0nat
        }) + starts_in(triggered(s).0, (n - 1) as nat)
    }
}

/// On a cache that is loading or ready, triggers neither start a load nor
/// change the state — in particular, once a value is ready, every caller
/// observes that same value.
pub proof fn lemma_no_start_outside_first<T>(s: CacheState<T>, n: nat)
    requires
        !(s is Uninitialized),
    ensures
        starts_in(s, n) == 0,
        trigger_state(s, n) == s,
    decreases n,
{
    if n > 0 {
        lemma_no_start_outside_first::<T>(s, (n - 1) as nat);
    }
}

/// Any number of concurrent requesters that find the cache uninitialized
/// start exactly one underlying load between them; afterwards the cache is
/// loading, with no stale value.
pub proof fn lemma_single_flight<T>(s: CacheState<T>, n: nat)
    requires
        s is Uninitialized,
        n >= 1,
    ensures
        starts_in(s, n) == 1,
        trigger_state(s, n) == (CacheState::Loading { stale: None::<T> }),
{
    lemma_no_start_outside_first::<T>(CacheState::Loading { stale: None::<T> }, (n - 1) as nat);
}

} // verus!
