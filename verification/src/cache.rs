//! Cache policies and the `Cache-Control` value each of them stands for.

use vstd::prelude::*;
use crate::asset::ViteFile;

verus! {

/// Where the served files come from.
#[derive(Clone, Copy, Debug, PartialEq, Eq, Structural)]
pub enum Mode {
    /// Files are fetched from a live dev server on every request.
    Development,
    /// Files come from the table compiled into the binary.
    Production,
}

/// The policy that decides the `Cache-Control` header of every served file.
#[derive(Debug)]
pub enum CacheStrategy {
    /// No caching: the client revalidates on every request.
    NoCache,
    /// Strong caching that relies on the entity tag for revalidation.
    Eager,
    /// Soft caching: a stale copy may be shown while it is revalidated.
    Lazy,
    /// A header value given by the caller, sent as it is.
    Custom(String),
}

/// The `Cache-Control` value of a policy, as a sequence of characters.
pub open spec fn cache_control(strategy: CacheStrategy) -> Seq<char> {
    match strategy {
        CacheStrategy::NoCache => "no-cache"@,
        CacheStrategy::Eager => "max-age=0, must-revalidate"@,
        CacheStrategy::Lazy => "max-age=0, stale-while-revalidate=604800"@,
        CacheStrategy::Custom(value) => value@,
    }
}

/// The policy used when the caller chooses none.
pub open spec fn default_strategy(mode: Mode) -> CacheStrategy {
    match mode {
        Mode::Development => CacheStrategy::NoCache,
        Mode::Production => CacheStrategy::Eager,
    }
}

impl Clone for CacheStrategy {
    fn clone(&self) -> (copy: CacheStrategy)
        ensures
            copy == *self,
    {
        match self {
            CacheStrategy::NoCache => CacheStrategy::NoCache,
            CacheStrategy::Eager => CacheStrategy::Eager,
            CacheStrategy::Lazy => CacheStrategy::Lazy,
            CacheStrategy::Custom(value) => CacheStrategy::Custom(value.clone()),
        }
    }
}

impl CacheStrategy {
    /// The policy used when the caller chooses none: no caching against a
    /// live dev server, strong caching against the embedded table.
    pub fn default_for(mode: Mode) -> (strategy: CacheStrategy)
        ensures
            strategy == default_strategy(mode),
    {
        match mode {
            Mode::Development => CacheStrategy::NoCache,
            Mode::Production => CacheStrategy::Eager,
        }
    }

    /// The `Cache-Control` header value of this policy.
    pub fn header_value(&self) -> (value: String)
        ensures
            value@ == cache_control(*self),
    {
        match self {
            CacheStrategy::NoCache => "no-cache".to_owned(),
            CacheStrategy::Eager => "max-age=0, must-revalidate".to_owned(),
            CacheStrategy::Lazy => "max-age=0, stale-while-revalidate=604800".to_owned(),
            CacheStrategy::Custom(value) => value.clone(),
        }
    }
}

/// The `Cache-Control` header value sent with `record` under `strategy`.
/// The policy alone decides: every file gets the same value.
pub fn resolve(strategy: &CacheStrategy, record: &ViteFile) -> (value: String)
    ensures
        value@ == cache_control(*strategy),
{
    let _ = record;
    strategy.header_value()
}

} // verus!
