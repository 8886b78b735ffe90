//! Resolving a `Location` header against the URL it arrived on.
//!
//! The resolution rules (scheme-relative references, absolute references,
//! path merging, percent-encoding) are the WHATWG URL standard's; the `url`
//! crate implements them, and this module only names its result.

use vstd::prelude::*;

verus! {

/// What base-plus-relative URL resolution yields for the two given strings:
/// `Some` of the joined absolute URL, or `None` where the base does not parse
/// as an absolute URL or the reference cannot be resolved against it. The
/// result depends on the two strings alone.
pub uninterp spec fn join_of(base: Seq<char>, reference: Seq<char>) -> Option<Seq<char>>;

/// Relies on `url::Url::parse` and `url::Url::join`: WHATWG base-plus-relative
/// URL resolution, a function of the two strings alone; both return `Err` only
/// where the text cannot be parsed as (or against) an absolute URL.
#[verifier::external_body]
pub(crate) fn resolve_location(base: &str, reference: &str) -> (r: Option<String>)
    ensures
        match r {
            Some(joined) => join_of(base@, reference@) == Some(joined@),
            None => join_of(base@, reference@) is None,
        },
{
    match url::Url::parse(base) {
        Ok(parsed_base) => match parsed_base.join(reference) {
            Ok(joined) => Some(String::from(joined.as_str())),
            Err(_) => None,
        },
        Err(_) => None,
    }
}

} // verus!
