//! The laws of the resolver, stated once over whole resolutions.
//!
//! A resolution is a run of `on_response` steps; its contract relates each
//! pair of consecutive states by `redirect_step` or `terminal_step`. The
//! lemmas here say what any such run adds up to: how long the recorded chain
//! can grow, which hop is final, where the resolution ends after a run of
//! redirects, and that spending the whole hop budget is a normal outcome.

use vstd::prelude::*;

use crate::model::hop_is;
use crate::resolver::Resolver;
use crate::resolver::fresh;
use crate::resolver::redirect_step;
use crate::resolver::terminal_step;
use crate::urljoin::join_of;

verus! {

/// Law: every well-formed resolver state with chain recording on holds at
/// least one and at most `max_hops + 1` hops.
pub proof fn lemma_chain_bounded(r: Resolver)
    requires
        r.wf(),
        r.record_chain,
    ensures
        1 <= r.chain@.len() <= r.max_hops + 1,
{
}

/// Law: a finished, well-formed resolution with chain recording marks
/// exactly one hop final: the last one.
pub proof fn lemma_exactly_one_final_hop(r: Resolver)
    requires
        r.wf(),
        r.done,
        r.record_chain,
    ensures
        r.chain@.last().is_final,
        forall|i: int|
            0 <= i < r.chain@.len() && r.chain@[i].is_final ==> i == r.chain@.len() - 1,
{
}

/// Law: with chain recording, the URL a resolution stands at — once it is
/// finished, the final URL — is always the last recorded hop's URL.
pub proof fn lemma_final_url_is_last_hop(r: Resolver)
    requires
        r.wf(),
        r.record_chain,
    ensures
        r.current_url@ == r.chain@.last().url@,
{
}

/// Law: a terminal first response finishes the resolution at the original
/// URL, with a single recorded hop carrying the status and marked final.
pub proof fn lemma_terminal_first_response(first: Resolver, status: u16, end: Resolver)
    requires
        fresh(first),
        terminal_step(first, status, end),
    ensures
        end.done,
        end.current_url@ == first.original_url@,
        first.record_chain ==> end.chain@.len() == 1,
        first.record_chain ==> hop_is(end.chain@.last(), first.original_url@, status, true),
{
}

/// A run of redirect responses: each pair of consecutive states is related
/// by one redirect step, with the given status and `Location` header.
pub open spec fn redirect_trace(
    states: Seq<Resolver>,
    statuses: Seq<u16>,
    locations: Seq<Seq<char>>,
) -> bool {
    &&& states.len() == statuses.len() + 1
    &&& states.len() == locations.len() + 1
    &&& forall|i: int|
        0 <= i < statuses.len() ==> #[trigger] redirect_step(
            states[i],
            statuses[i],
            locations[i],
            states[i + 1],
        )
}

/// After a run of N redirect steps from a fresh resolver, the resolution has
/// issued N requests, stands at the last redirect's target, is finished
/// exactly when N equals the hop budget, and has recorded N + 1 hops.
pub proof fn lemma_redirect_trace(
    states: Seq<Resolver>,
    statuses: Seq<u16>,
    locations: Seq<Seq<char>>,
)
    requires
        redirect_trace(states, statuses, locations),
        states.len() >= 1,
        fresh(states[0]),
    ensures
        states.last().requests_made == statuses.len(),
        states.last().original_url@ == states[0].original_url@,
        states.last().max_hops == states[0].max_hops,
        states.last().record_chain == states[0].record_chain,
        states.last().done == (statuses.len() == states[0].max_hops),
        states[0].record_chain ==> states.last().chain@.len() == statuses.len() + 1,
        statuses.len() >= 1 ==> states.last().current_url@ == join_of(
            states[states.len() - 2].current_url@,
            locations.last(),
        )->0,
        statuses.len() == 0 ==> states.last().current_url@ == states[0].original_url@,
    decreases states.len(),
{
    if states.len() == 1 {
        // A fresh resolver has spent nothing and sits at the original URL;
        // its budget of at least one hop is not exhausted.
    } else {
        let n: int = states.len() - 1;
        let k: int = n - 1;
        let prefix_states = states.subrange(0, n);
        let prefix_statuses = statuses.subrange(0, k);
        let prefix_locations = locations.subrange(0, k);
        assert forall|i: int| 0 <= i < prefix_statuses.len() implies #[trigger] redirect_step(
            prefix_states[i],
            prefix_statuses[i],
            prefix_locations[i],
            prefix_states[i + 1],
        ) by {
            assert(redirect_step(states[i], statuses[i], locations[i], states[i + 1]));
        }
        lemma_redirect_trace(prefix_states, prefix_statuses, prefix_locations);
        assert(redirect_step(states[k], statuses[k], locations[k], states[k + 1]));
        assert(prefix_states.last() == states[k]);
    }
}

/// Law: N redirects followed by a terminal response, N below the hop budget,
/// finish the resolution at the last redirect's target, after N + 1 requests
/// and with N + 1 recorded hops, the last of them carrying the terminal
/// status and marked final.
pub proof fn lemma_redirects_then_terminal(
    states: Seq<Resolver>,
    statuses: Seq<u16>,
    locations: Seq<Seq<char>>,
    terminal_status: u16,
    end: Resolver,
)
    requires
        redirect_trace(states, statuses, locations),
        states.len() >= 1,
        fresh(states[0]),
        statuses.len() < states[0].max_hops,
        terminal_step(states.last(), terminal_status, end),
    ensures
        end.done,
        end.original_url@ == states[0].original_url@,
        end.current_url@ == states.last().current_url@,
        statuses.len() >= 1 ==> end.current_url@ == join_of(
            states[states.len() - 2].current_url@,
            locations.last(),
        )->0,
        end.requests_made == statuses.len() + 1,
        states[0].record_chain ==> end.chain@.len() == statuses.len() + 1,
        states[0].record_chain ==> hop_is(
            end.chain@.last(),
            states.last().current_url@,
            terminal_status,
            true,
        ),
{
    lemma_redirect_trace(states, statuses, locations);
}

/// Law: spending the whole hop budget on redirects finishes the resolution —
/// a normal outcome, not an error — at the last redirect's target, with
/// `max_hops + 1` recorded hops and the last of them marked final.
pub proof fn lemma_hop_limit_exhausted(
    states: Seq<Resolver>,
    statuses: Seq<u16>,
    locations: Seq<Seq<char>>,
)
    requires
        redirect_trace(states, statuses, locations),
        states.len() >= 1,
        fresh(states[0]),
        statuses.len() == states[0].max_hops,
    ensures
        states.last().done,
        states.last().original_url@ == states[0].original_url@,
        states.last().current_url@ == join_of(
            states[states.len() - 2].current_url@,
            locations.last(),
        )->0,
        states[0].record_chain ==> states.last().chain@.len() == states[0].max_hops + 1,
        states[0].record_chain ==> states.last().chain@.last().is_final,
{
    lemma_redirect_trace(states, statuses, locations);
    let k: int = states.len() - 2;
    assert(redirect_step(states[k], statuses[k], locations[k], states[k + 1]));
}

} // verus!
