//! Resolves a shortened or redirecting URL to its final destination by
//! following `Location` headers one hop at a time, recording each hop.
//!
//! The resolver itself never touches the network: it is a step-by-step state
//! machine. A caller asks for the next URL to request, performs one GET with
//! transport-level redirect following disabled, and hands the status code and
//! `Location` header back. The resolver decides whether to continue, and with
//! which URL, until a terminal response arrives or the hop budget is spent.

mod expander;
mod laws;
mod model;
mod resolver;
mod urljoin;

pub use expander::UrlExpander;
pub use laws::lemma_chain_bounded;
pub use laws::lemma_exactly_one_final_hop;
pub use laws::lemma_final_url_is_last_hop;
pub use laws::lemma_hop_limit_exhausted;
pub use laws::lemma_redirect_trace;
pub use laws::lemma_redirects_then_terminal;
pub use laws::lemma_terminal_first_response;
pub use laws::redirect_trace;
pub use model::ExpansionResult;
pub use model::RedirectHop;
pub use model::ResolveConfig;
pub use model::ResolveError;
pub use model::hop_is;
pub use resolver::Resolver;
pub use resolver::fresh;
pub use resolver::is_prefix_of;
pub use resolver::is_valid_start_url;
pub use resolver::redirect_step;
pub use resolver::spec_is_redirect;
pub use resolver::terminal_step;
pub use resolver::valid_start_url;
pub use urljoin::join_of;
