//! The data a resolution produces: hops, results, configuration and errors.

use vstd::prelude::*;

verus! {

/// One step in a redirect chain: one URL requested and, once the response
/// for it has arrived, the status code it produced. `status_code` stays 0
/// until the request for this hop completes. Exactly one hop of a finished
/// chain carries `is_final == true`.
#[derive(Debug, Clone)]
pub struct RedirectHop {
    pub url: String,
    pub status_code: u16,
    pub is_final: bool,
}

/// Says that a hop carries exactly the given URL, status code and final flag.
pub open spec fn hop_is(h: RedirectHop, url: Seq<char>, status: u16, is_final: bool) -> bool {
    &&& h.url@ == url
    &&& h.status_code == status
    &&& h.is_final == is_final
}

/// The outcome of one whole resolution. `original_url` is the caller's input,
/// unmodified; `final_url` is the URL that produced a non-redirect response,
/// or the last URL visited when the hop budget ran out. `redirect_chain` is
/// empty when chain recording was off.
#[derive(Debug, Clone)]
pub struct ExpansionResult {
    pub original_url: String,
    pub final_url: String,
    pub redirect_chain: Vec<RedirectHop>,
    pub expansion_time_ms: u32,
}

/// Per-resolution configuration, passed by value into each resolution; the
/// resolver holds no state across calls. `max_hops` bounds the number of
/// requests issued, not the number of hops recorded. `timeout_ms` is enforced
/// by whatever performs the requests, not by the resolver loop.
#[derive(Debug, Clone, Copy)]
pub struct ResolveConfig {
    pub max_hops: u32,
    pub timeout_ms: u32,
    pub record_chain: bool,
}

impl Default for ResolveConfig {
    /// Ten hops, a ten-second timeout, chain recording on.
    fn default() -> (r: ResolveConfig)
        ensures
            r.max_hops == 10,
            r.timeout_ms == 10000,
            r.record_chain,
    {
        ResolveConfig { max_hops: 10, timeout_ms: 10000, record_chain: true }
    }
}

/// Why a resolution was aborted. Exhausting the hop budget is not an error:
/// it yields a normal result carrying the last URL seen.
#[derive(Debug, Clone, Copy, PartialEq, Eq, Structural)]
pub enum ResolveError {
    /// The starting URL does not begin with an `http://` or `https://` scheme.
    InvalidUrl,
    /// A request failed at the transport level (connection, DNS, timeout).
    Transport,
    /// A `Location` header could not be resolved against the current URL.
    BadRedirectTarget,
}

} // verus!
