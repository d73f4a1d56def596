//! The one entry point behind which files are served: from the embedded
//! table, or relayed from the dev server.

use vstd::prelude::*;
use crate::asset::{FileView, GetFromVite};
use crate::cache::{cache_control, default_strategy, CacheStrategy, Mode};
use crate::respond::{request_key, respond, response_for, Response, ResponseView};
use crate::text::slice_text;
use crate::supervisor::SupervisorError;

verus! {

/// A source of files together with the cache policy applied to every file
/// served from it.
pub struct ViteServe<T: GetFromVite> {
    assets: T,
    mode: Mode,
    cache_strategy: CacheStrategy,
}

/// The answer sent when the dev server cannot be reached.
pub open spec fn bad_gateway() -> ResponseView {
    ResponseView {
        status: 502,
        body: Seq::empty(),
        content_type: None,
        content_length: None,
        last_modified: None,
        etag: None,
        cache_control: None,
    }
}

/// The dev server's answer as it is sent on: unchanged but for the cache
/// header of the policy.
pub open spec fn relayed(upstream: ResponseView, strategy: CacheStrategy) -> ResponseView {
    ResponseView { cache_control: Some(cache_control(strategy)), ..upstream }
}

impl<T: GetFromVite> ViteServe<T> {
    /// The source of files.
    pub closed spec fn assets(&self) -> T {
        self.assets
    }

    /// The mode that the service was made for.
    pub closed spec fn mode(&self) -> Mode {
        self.mode
    }

    /// The cache policy in force.
    pub closed spec fn strategy(&self) -> CacheStrategy {
        self.cache_strategy
    }

    /// A service over `assets` with the default policy of `mode`, which is
    /// fixed here and not looked at again.
    pub fn new(assets: T, mode: Mode) -> (service: Self)
        ensures
            service.assets() == assets,
            service.mode() == mode,
            service.strategy() == default_strategy(mode),
    {
        ViteServe { assets, mode, cache_strategy: CacheStrategy::default_for(mode) }
    }

    /// The same service with another cache policy.
    pub fn with_cache_strategy(self, strategy: CacheStrategy) -> (service: Self)
        ensures
            service.assets() == self.assets(),
            service.mode() == self.mode(),
            service.strategy() == strategy,
    {
        ViteServe { assets: self.assets, mode: self.mode, cache_strategy: strategy }
    }

    /// The cache policy in force.
    pub fn cache_strategy(&self) -> (strategy: &CacheStrategy)
        ensures
            *strategy == self.strategy(),
    {
        &self.cache_strategy
    }

    /// Answers a request for `path` from the source of files.
    pub fn serve(&self, path: &str, if_none_match: Option<&str>) -> (response: Response)
        ensures
            exists|lookup: Option<FileView>|
                #![trigger self.assets().may_yield(request_key(path@), lookup)]
                self.assets().may_yield(request_key(path@), lookup) && response@ == response_for(
                    lookup,
                    self.mode(),
                    self.strategy(),
                    slice_text(if_none_match),
                ),
    {
        let response = respond(&self.assets, path, if_none_match, self.mode, &self.cache_strategy);
        proof {
            let lookup = choose|lookup: Option<FileView>|
                #![trigger self.assets.may_yield(request_key(path@), lookup)]
                self.assets.may_yield(request_key(path@), lookup) && response@ == response_for(
                    lookup,
                    self.mode,
                    self.cache_strategy,
                    slice_text(if_none_match),
                );
            assert(self.assets().may_yield(request_key(path@), lookup));
        }
        response
    }

    /// Turns what forwarding a request gave into the answer to send: the
    /// dev server's answer with the policy's cache header, or 502 when the
    /// request could not be forwarded.
    pub fn relay(&self, upstream: Result<Response, SupervisorError>) -> (response: Response)
        ensures
            response@ == match upstream {
                Ok(answer) => relayed(answer@, self.strategy()),
                Err(_) => bad_gateway(),
            },
    {
        match upstream {
            Ok(answer) => Response {
                status: answer.status,
                body: answer.body,
                content_type: answer.content_type,
                content_length: answer.content_length,
                last_modified: answer.last_modified,
                etag: answer.etag,
                cache_control: Some(self.cache_strategy.header_value()),
            },
            Err(_) => Response {
                status: 502,
                body: Vec::new(),
                content_type: None,
                content_length: None,
                last_modified: None,
                etag: None,
                cache_control: None,
            },
        }
    }
}

/// Served from a table, the answer is the one that `response_for` gives
/// for what the table holds under the key of the path.
pub proof fn table_answer_is_exact(
    table: crate::table::AssetTable,
    key: Seq<char>,
    lookup: Option<FileView>,
)
    requires
        table.may_yield(key, lookup),
    ensures
        lookup == if table@.dom().contains(key) {
            Some(table@[key])
        } else {
            None
        },
{
}

} // verus!
