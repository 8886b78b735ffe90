//! The caller-facing configuration object: defaults and setters, with the
//! per-resolution configuration handed out by value so that no state is
//! shared across resolutions.

use vstd::prelude::*;

use crate::model::ResolveConfig;

verus! {

/// Holds the knobs a caller may turn before expanding URLs: the hop budget
/// and the per-request timeout. Chain recording is on for every resolution
/// it configures.
pub struct UrlExpander {
    pub max_redirects: u32,
    pub timeout_ms: u32,
}

impl UrlExpander {
    /// A fresh expander: ten hops, a ten-second timeout.
    pub fn new() -> (r: UrlExpander)
        ensures
            r.max_redirects == 10,
            r.timeout_ms == 10000,
    {
        UrlExpander { max_redirects: 10, timeout_ms: 10000 }
    }

    /// Change the hop budget of later resolutions. A resolution demands a
    /// budget of at least one request; `Resolver::start` requires it.
    pub fn set_max_redirects(&mut self, max_redirects: u32)
        ensures
            final(self).max_redirects == max_redirects,
            final(self).timeout_ms == old(self).timeout_ms,
    {
        self.max_redirects = max_redirects;
    }

    /// Change the per-request timeout of later resolutions.
    pub fn set_timeout_ms(&mut self, timeout_ms: u32)
        ensures
            final(self).timeout_ms == timeout_ms,
            final(self).max_redirects == old(self).max_redirects,
    {
        self.timeout_ms = timeout_ms;
    }

    /// The configuration one resolution runs under, taken by value.
    pub fn config(&self) -> (r: ResolveConfig)
        ensures
            r.max_hops == self.max_redirects,
            r.timeout_ms == self.timeout_ms,
            r.record_chain,
            self.max_redirects >= 1 ==> r.max_hops >= 1,
    {
        ResolveConfig {
            max_hops: self.max_redirects,
            timeout_ms: self.timeout_ms,
            record_chain: true,
        }
    }
}

} // verus!
