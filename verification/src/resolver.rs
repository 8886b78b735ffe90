//! The redirect-resolution state machine.
//!
//! A `Resolver` is created from a starting URL and a configuration, and is
//! then driven by whoever performs the HTTP requests: `next_url` names the
//! URL to request, and `on_response` consumes the status code and `Location`
//! header of the response, deciding whether the chain continues, where it
//! goes next, and when it is finished. `into_result` packages the finished
//! resolution. The resolver issues no request itself, so the same machine
//! runs against any transport.

use vstd::prelude::*;
use vstd::string::StrSliceExecFns;

use crate::model::ExpansionResult;
use crate::model::RedirectHop;
use crate::model::ResolveConfig;
use crate::model::ResolveError;
use crate::model::hop_is;
use crate::urljoin::join_of;
use crate::urljoin::resolve_location;

verus! {

/// Whether `p` is a prefix of `s`.
pub open spec fn is_prefix_of(p: Seq<char>, s: Seq<char>) -> bool {
    p.len() <= s.len() && s.subrange(0, p.len() as int) == p
}

/// A starting URL is acceptable when it carries an `http` or `https` scheme.
pub open spec fn valid_start_url(s: Seq<char>) -> bool {
    is_prefix_of("http://"@, s) || is_prefix_of("https://"@, s)
}

/// A response in the HTTP redirection class.
pub open spec fn spec_is_redirect(status: u16) -> bool {
    300 <= status < 400
}

fn str_has_prefix(s: &str, p: &str) -> (r: bool)
    ensures
        r == is_prefix_of(p@, s@),
{
    let s_len = s.unicode_len();
    let p_len = p.unicode_len();
    if p_len > s_len {
        return false;
    }
    let mut i: usize = 0;
    while i < p_len
        invariant
            i <= p_len,
            p_len == p@.len(),
            s_len == s@.len(),
            p_len <= s_len,
            forall|j: int| 0 <= j < i ==> s@[j] == p@[j],
        decreases p_len - i,
    {
        if s.get_char(i) != p.get_char(i) {
            proof {
                assert(s@.subrange(0, p@.len() as int)[i as int] == s@[i as int]);
            }
            return false;
        }
        i = i + 1;
    }
    proof {
        assert(s@.subrange(0, p@.len() as int) =~= p@);
    }
    true
}

/// Whether a string is acceptable as a starting URL.
pub fn is_valid_start_url(url: &str) -> (r: bool)
    ensures
        r == valid_start_url(url@),
{
    str_has_prefix(url, "http://") || str_has_prefix(url, "https://")
}

/// One in-progress resolution. Created by `start`, advanced by `on_response`
/// once per HTTP response, finished by `into_result`. Each resolution owns
/// its own state; nothing is shared across resolutions.
pub struct Resolver {
    /// The caller's input, never changed after `start`.
    pub original_url: String,
    /// The URL the next request goes to, or — once `done` — the final URL.
    pub current_url: String,
    /// The recorded hops, in request order; empty when recording is off.
    pub chain: Vec<RedirectHop>,
    /// Whether hops are recorded.
    pub record_chain: bool,
    /// How many requests this resolution may issue in all.
    pub max_hops: u32,
    /// How many responses `on_response` has consumed.
    pub requests_made: u32,
    /// Whether the resolution is finished: a terminal response arrived, or
    /// the hop budget is spent.
    pub done: bool,
}

/// The state `start` establishes: nothing requested yet, the resolution
/// sitting at the original URL.
pub open spec fn fresh(r: Resolver) -> bool {
    &&& r.wf()
    &&& !r.done
    &&& r.requests_made == 0
    &&& r.current_url@ == r.original_url@
}

/// How consuming one response that redirects the resolution onward relates
/// the resolver state before it to the state after it: the `Location` header
/// `location` resolves against the current URL, the resolution moves there,
/// one more request is spent, and the move finishes the resolution exactly
/// when it spends the last of the budget. With recording, the answered hop
/// keeps its URL and takes the status, and one unanswered hop is appended
/// for the target.
pub open spec fn redirect_step(pre: Resolver, status: u16, location: Seq<char>, post: Resolver) -> bool {
    &&& spec_is_redirect(status)
    &&& join_of(pre.current_url@, location) is Some
    &&& post.current_url@ == join_of(pre.current_url@, location)->0
    &&& post.requests_made == pre.requests_made + 1
    &&& post.done == (pre.requests_made + 1 == pre.max_hops)
    &&& post.original_url@ == pre.original_url@
    &&& post.max_hops == pre.max_hops
    &&& post.record_chain == pre.record_chain
    &&& pre.record_chain ==> {
        &&& post.chain@.len() == pre.chain@.len() + 1
        &&& (forall|i: int|
            0 <= i < pre.chain@.len() - 1 ==> post.chain@[i] == pre.chain@[i])
        &&& hop_is(post.chain@[pre.chain@.len() - 1], pre.current_url@, status, false)
        &&& hop_is(post.chain@.last(), post.current_url@, 0, post.done)
    }
}

/// How consuming one terminal response — a non-redirect status, or a
/// redirect without a `Location` header — relates the resolver state before
/// it to the state after it: the resolution finishes where it stands. With
/// recording, the answered hop keeps its URL, takes the status, and is
/// marked final.
pub open spec fn terminal_step(pre: Resolver, status: u16, post: Resolver) -> bool {
    &&& post.done
    &&& post.current_url@ == pre.current_url@
    &&& post.requests_made == pre.requests_made + 1
    &&& post.original_url@ == pre.original_url@
    &&& post.max_hops == pre.max_hops
    &&& post.record_chain == pre.record_chain
    &&& pre.record_chain ==> {
        &&& post.chain@.len() == pre.chain@.len()
        &&& (forall|i: int|
            0 <= i < pre.chain@.len() - 1 ==> post.chain@[i] == pre.chain@[i])
        &&& hop_is(post.chain@.last(), pre.current_url@, status, true)
    }
}

impl Resolver {
    /// The invariant of the recorded chain: it starts at the original URL,
    /// ends at the current one, grows by at most one hop per response, and
    /// its last hop — and only its last hop — is marked final exactly when
    /// the resolution is finished.
    pub open spec fn chain_wf(self) -> bool {
        &&& self.chain@.len() >= 1
        &&& self.chain@.len() <= self.requests_made + 1
        &&& !self.done ==> self.chain@.len() == self.requests_made + 1
        &&& self.chain@[0].url@ == self.original_url@
        &&& self.chain@.last().url@ == self.current_url@
        &&& forall|i: int| 0 <= i < self.chain@.len() - 1 ==> !self.chain@[i].is_final
        &&& self.chain@.last().is_final == self.done
    }

    /// Well-formedness: what `start` establishes and every step preserves.
    pub open spec fn wf(self) -> bool {
        &&& self.max_hops >= 1
        &&& self.requests_made <= self.max_hops
        &&& !self.done ==> self.requests_made < self.max_hops
        &&& valid_start_url(self.original_url@)
        &&& if self.record_chain {
                self.chain_wf()
            } else {
                self.chain@.len() == 0
            }
    }

    /// Begin a resolution at `url`. Rejects, before any request is issued,
    /// a starting URL without an `http://` or `https://` scheme; otherwise
    /// the resolver starts at `url` with an empty budget spent and, when
    /// recording, a single unanswered hop for `url` itself.
    pub fn start(url: &str, config: &ResolveConfig) -> (r: Result<Resolver, ResolveError>)
        requires
            config.max_hops >= 1,
        ensures
            match r {
                Ok(res) => {
                    &&& valid_start_url(url@)
                    &&& fresh(res)
                    &&& res.original_url@ == url@
                    &&& res.current_url@ == url@
                    &&& res.requests_made == 0
                    &&& res.max_hops == config.max_hops
                    &&& res.record_chain == config.record_chain
                    &&& config.record_chain ==> res.chain@.len() == 1 && hop_is(
                        res.chain@[0],
                        url@,
                        0,
                        false,
                    )
                },
                Err(e) => e is InvalidUrl && !valid_start_url(url@),
            },
    {
        if !is_valid_start_url(url) {
            return Err(ResolveError::InvalidUrl);
        }
        let mut chain: Vec<RedirectHop> = Vec::new();
        if config.record_chain {
            chain.push(RedirectHop { url: url.to_owned(), status_code: 0, is_final: false });
        }
        Ok(Resolver {
            original_url: url.to_owned(),
            current_url: url.to_owned(),
            chain,
            record_chain: config.record_chain,
            max_hops: config.max_hops,
            requests_made: 0,
            done: false,
        })
    }

    /// The URL the next request must go to: `Some` exactly while the
    /// resolution is unfinished.
    pub fn next_url(&self) -> (r: Option<&String>)
        ensures
            match r {
                Some(u) => !self.done && u@ == self.current_url@,
                None => self.done,
            },
    {
        if self.done {
            None
        } else {
            Some(&self.current_url)
        }
    }

    /// Whether the resolution is finished.
    pub fn is_done(&self) -> (r: bool)
        ensures
            r == self.done,
    {
        self.done
    }

    /// Consume one HTTP response: the status code of the request to
    /// `current_url`, and its `Location` header if it carried one.
    ///
    /// A redirection-class status with a `Location` header moves the
    /// resolution to the header resolved against the current URL; any other
    /// response — a non-redirect status, or a redirect without `Location` —
    /// finishes it at the current URL. Spending the last of the hop budget
    /// on a redirect also finishes it, at the redirect's target; that is a
    /// normal outcome, not an error. The one error is a `Location` header
    /// that cannot be resolved against the current URL, which aborts the
    /// resolution and leaves the resolver untouched.
    pub fn on_response(&mut self, status: u16, location: Option<&str>) -> (r: Result<
        (),
        ResolveError,
    >)
        requires
            old(self).wf(),
            !old(self).done,
        ensures
            final(self).wf(),
            match r {
                Ok(()) => {
                    &&& spec_is_redirect(status) && location is Some ==> redirect_step(
                        *old(self),
                        status,
                        location->0@,
                        *final(self),
                    )
                    &&& !(spec_is_redirect(status) && location is Some) ==> terminal_step(
                        *old(self),
                        status,
                        *final(self),
                    )
                },
                Err(e) => {
                    &&& e is BadRedirectTarget
                    &&& spec_is_redirect(status)
                    &&& location is Some
                    &&& join_of(old(self).current_url@, location->0@) is None
                    &&& *final(self) == *old(self)
                },
            },
    {
        let is_redirect = 300 <= status && status < 400;
        if is_redirect && location.is_some() {
            let loc = location.unwrap();
            match resolve_location(self.current_url.as_str(), loc) {
                Some(next) => {
                    self.requests_made = self.requests_made + 1;
                    self.done = self.requests_made == self.max_hops;
                    if self.record_chain {
                        let mut answered = self.chain.pop().unwrap();
                        answered.status_code = status;
                        self.chain.push(answered);
                        self.chain.push(
                            RedirectHop {
                                url: next.clone(),
                                status_code: 0,
                                is_final: self.done,
                            },
                        );
                    }
                    self.current_url = next;
                    Ok(())
                },
                None => Err(ResolveError::BadRedirectTarget),
            }
        } else {
            self.requests_made = self.requests_made + 1;
            self.done = true;
            if self.record_chain {
                let mut answered = self.chain.pop().unwrap();
                answered.status_code = status;
                answered.is_final = true;
                self.chain.push(answered);
            }
            Ok(())
        }
    }

    /// Package a finished resolution. The result carries the original URL
    /// unmodified, the final URL the resolution stopped at, the recorded
    /// chain, and the elapsed time the caller measured. With chain recording
    /// the chain holds at most `max_hops + 1` hops, begins at the original
    /// URL, ends at the final URL, and exactly its last hop is marked final.
    pub fn into_result(self, elapsed_ms: u32) -> (r: ExpansionResult)
        requires
            self.wf(),
            self.done,
        ensures
            r.original_url@ == self.original_url@,
            r.final_url@ == self.current_url@,
            r.expansion_time_ms == elapsed_ms,
            r.redirect_chain@ == self.chain@,
            !self.record_chain ==> r.redirect_chain@.len() == 0,
            self.record_chain ==> {
                &&& 1 <= r.redirect_chain@.len() <= self.max_hops + 1
                &&& r.redirect_chain@[0].url@ == r.original_url@
                &&& r.final_url@ == r.redirect_chain@.last().url@
                &&& r.redirect_chain@.last().is_final
                &&& forall|i: int|
                    0 <= i < r.redirect_chain@.len() - 1 ==> !r.redirect_chain@[i].is_final
            },
    {
        ExpansionResult {
            original_url: self.original_url,
            final_url: self.current_url,
            redirect_chain: self.chain,
            expansion_time_ms: elapsed_ms,
        }
    }
}

} // verus!
