use urlxpanda::ExpansionResult;
use urlxpanda::ResolveConfig;
use urlxpanda::ResolveError;
use urlxpanda::Resolver;
use urlxpanda::UrlExpander;
use urlxpanda::is_valid_start_url;

fn recording_config(max_hops: u32) -> ResolveConfig {
    ResolveConfig { max_hops, timeout_ms: 10000, record_chain: true }
}

fn assert_chain_invariants(result: &ExpansionResult, max_hops: u32) {
    let chain = &result.redirect_chain;
    assert!(chain.len() >= 1);
    assert!(chain.len() <= max_hops as usize + 1);
    let finals = chain.iter().filter(|h| h.is_final).count();
    assert_eq!(finals, 1);
    assert!(chain.last().unwrap().is_final);
    assert_eq!(result.final_url, chain.last().unwrap().url);
    assert_eq!(result.original_url, chain.first().unwrap().url);
}

#[test]
fn non_redirect_first_response_is_final() {
    let config = recording_config(10);
    let mut resolver = Resolver::start("https://a.example/x", &config).unwrap();
    assert_eq!(resolver.next_url().unwrap(), "https://a.example/x");
    resolver.on_response(200, None).unwrap();
    assert!(resolver.is_done());
    let result = resolver.into_result(5);
    assert_eq!(result.final_url, "https://a.example/x");
    assert_eq!(result.original_url, "https://a.example/x");
    assert_eq!(result.redirect_chain.len(), 1);
    assert!(result.redirect_chain[0].is_final);
    assert_eq!(result.redirect_chain[0].status_code, 200);
    assert_eq!(result.expansion_time_ms, 5);
    assert_chain_invariants(&result, 10);
}

#[test]
fn two_redirects_then_200() {
    let config = recording_config(10);
    let mut resolver = Resolver::start("https://a.example/one", &config).unwrap();
    resolver.on_response(301, Some("https://a.example/two")).unwrap();
    assert_eq!(resolver.next_url().unwrap(), "https://a.example/two");
    resolver.on_response(302, Some("https://b.example/three")).unwrap();
    assert_eq!(resolver.next_url().unwrap(), "https://b.example/three");
    resolver.on_response(200, None).unwrap();
    assert!(resolver.is_done());
    let result = resolver.into_result(12);
    assert_eq!(result.final_url, "https://b.example/three");
    assert_eq!(result.redirect_chain.len(), 3);
    assert_eq!(result.redirect_chain[0].status_code, 301);
    assert_eq!(result.redirect_chain[1].status_code, 302);
    assert_eq!(result.redirect_chain[2].status_code, 200);
    assert!(!result.redirect_chain[0].is_final);
    assert!(!result.redirect_chain[1].is_final);
    assert!(result.redirect_chain[2].is_final);
    assert_chain_invariants(&result, 10);
}

#[test]
fn hop_limit_exhausted_is_a_normal_result() {
    let config = recording_config(3);
    let mut resolver = Resolver::start("https://a.example/0", &config).unwrap();
    resolver.on_response(301, Some("https://a.example/1")).unwrap();
    resolver.on_response(301, Some("https://a.example/2")).unwrap();
    assert!(!resolver.is_done());
    resolver.on_response(301, Some("https://a.example/3")).unwrap();
    assert!(resolver.is_done());
    assert!(resolver.next_url().is_none());
    let result = resolver.into_result(9);
    assert_eq!(result.final_url, "https://a.example/3");
    assert_eq!(result.redirect_chain.len(), 4);
    let last = result.redirect_chain.last().unwrap();
    assert!(last.is_final);
    assert_eq!(last.status_code, 0);
    assert_chain_invariants(&result, 3);
}

#[test]
fn relative_location_resolves_against_current_url() {
    let config = recording_config(10);
    let mut resolver = Resolver::start("https://a.example/x", &config).unwrap();
    resolver.on_response(302, Some("/y")).unwrap();
    assert_eq!(resolver.next_url().unwrap(), "https://a.example/y");
}

#[test]
fn relative_path_location_replaces_last_segment() {
    let config = recording_config(10);
    let mut resolver = Resolver::start("https://example.net/a/b.html", &config).unwrap();
    resolver.on_response(302, Some("c.png")).unwrap();
    assert_eq!(resolver.next_url().unwrap(), "https://example.net/a/c.png");
}

#[test]
fn scheme_relative_location_keeps_scheme() {
    let config = recording_config(10);
    let mut resolver = Resolver::start("https://alice.com/a", &config).unwrap();
    resolver.on_response(307, Some("//eve.com/b")).unwrap();
    assert_eq!(resolver.next_url().unwrap(), "https://eve.com/b");
}

#[test]
fn redirect_without_location_terminates() {
    let config = recording_config(10);
    let mut resolver = Resolver::start("https://a.example/x", &config).unwrap();
    resolver.on_response(301, None).unwrap();
    assert!(resolver.is_done());
    let result = resolver.into_result(3);
    assert_eq!(result.final_url, "https://a.example/x");
    assert_eq!(result.redirect_chain.len(), 1);
    assert!(result.redirect_chain[0].is_final);
    assert_eq!(result.redirect_chain[0].status_code, 301);
    assert_chain_invariants(&result, 10);
}

#[test]
fn shortened_url_expands_to_real_page() {
    let config = recording_config(10);
    let mut resolver = Resolver::start("https://bit.ly/3eQsUNw", &config).unwrap();
    resolver.on_response(301, Some("https://example.com/real-page")).unwrap();
    resolver.on_response(200, None).unwrap();
    let result = resolver.into_result(20);
    assert_eq!(result.final_url, "https://example.com/real-page");
    assert_eq!(result.original_url, "https://bit.ly/3eQsUNw");
    assert_eq!(result.redirect_chain.len(), 2);
    assert!(result.redirect_chain[1].is_final);
    assert_chain_invariants(&result, 10);
}

#[test]
fn start_rejects_other_schemes() {
    let config = recording_config(10);
    assert_eq!(
        Resolver::start("ftp://a.example/x", &config).err().unwrap(),
        ResolveError::InvalidUrl
    );
    assert_eq!(Resolver::start("a.example/x", &config).err().unwrap(), ResolveError::InvalidUrl);
    assert_eq!(Resolver::start("", &config).err().unwrap(), ResolveError::InvalidUrl);
    assert_eq!(Resolver::start("http:/a", &config).err().unwrap(), ResolveError::InvalidUrl);
}

#[test]
fn unjoinable_location_is_an_error() {
    let config = recording_config(10);
    let mut resolver = Resolver::start("https://a.example/x", &config).unwrap();
    let stepped = resolver.on_response(301, Some("http://["));
    assert_eq!(stepped.err().unwrap(), ResolveError::BadRedirectTarget);
    // The aborted resolution is left untouched.
    assert!(!resolver.is_done());
    assert_eq!(resolver.next_url().unwrap(), "https://a.example/x");
}

#[test]
fn redirect_class_boundaries() {
    for (status, expect_done) in [(299u16, true), (300, false), (399, false), (400, true)] {
        let config = recording_config(10);
        let mut resolver = Resolver::start("https://a.example/x", &config).unwrap();
        resolver.on_response(status, Some("https://a.example/y")).unwrap();
        assert_eq!(resolver.is_done(), expect_done, "status {}", status);
    }
}

#[test]
fn single_hop_budget_spent_on_a_redirect() {
    let config = recording_config(1);
    let mut resolver = Resolver::start("https://a.example/x", &config).unwrap();
    resolver.on_response(308, Some("https://a.example/y")).unwrap();
    assert!(resolver.is_done());
    let result = resolver.into_result(2);
    assert_eq!(result.final_url, "https://a.example/y");
    assert_eq!(result.redirect_chain.len(), 2);
    assert!(result.redirect_chain[1].is_final);
    assert_eq!(result.redirect_chain[0].status_code, 308);
    assert_chain_invariants(&result, 1);
}

#[test]
fn chain_recording_off_yields_empty_chain() {
    let config = ResolveConfig { max_hops: 10, timeout_ms: 10000, record_chain: false };
    let mut resolver = Resolver::start("https://a.example/one", &config).unwrap();
    resolver.on_response(301, Some("https://a.example/two")).unwrap();
    resolver.on_response(200, None).unwrap();
    let result = resolver.into_result(4);
    assert_eq!(result.final_url, "https://a.example/two");
    assert_eq!(result.original_url, "https://a.example/one");
    assert!(result.redirect_chain.is_empty());
}

#[test]
fn valid_start_url_checks_scheme_prefix() {
    assert!(is_valid_start_url("http://a"));
    assert!(is_valid_start_url("https://a"));
    assert!(!is_valid_start_url("HTTP://a"));
    assert!(!is_valid_start_url("https:a"));
    assert!(!is_valid_start_url("ws://a"));
    assert!(!is_valid_start_url(""));
}

#[test]
fn expander_defaults_and_setters() {
    let mut expander = UrlExpander::new();
    assert_eq!(expander.max_redirects, 10);
    assert_eq!(expander.timeout_ms, 10000);
    expander.set_max_redirects(5);
    expander.set_timeout_ms(2000);
    let config = expander.config();
    assert_eq!(config.max_hops, 5);
    assert_eq!(config.timeout_ms, 2000);
    assert!(config.record_chain);
}

#[test]
fn default_config_matches_expander_defaults() {
    let config = ResolveConfig::default();
    assert_eq!(config.max_hops, 10);
    assert_eq!(config.timeout_ms, 10000);
    assert!(config.record_chain);
}

#[test]
fn error_variants_are_distinct() {
    assert_ne!(ResolveError::InvalidUrl, ResolveError::Transport);
    assert_ne!(ResolveError::Transport, ResolveError::BadRedirectTarget);
    assert_ne!(ResolveError::InvalidUrl, ResolveError::BadRedirectTarget);
}
