//! Resolution of the endpoint: which of the two candidates is taken, and
//! the scheme it is given.

use vstd::prelude::*;
use crate::args::Args;
use crate::error::ParseError;

verus! {

/// Whether `url` begins with an HTTP scheme: with `http://` or with
/// `https://`.
pub open spec fn has_http_scheme(url: Seq<char>) -> bool {
    "http://"@.is_prefix_of(url) || "https://"@.is_prefix_of(url)
}

/// `url` itself where it begins with an HTTP scheme, else `url` behind
/// `http://`.
pub open spec fn with_scheme(url: Seq<char>) -> Seq<char> {
    if has_http_scheme(url) {
        url
    } else {
        "http://"@ + url
    }
}

/// The candidate that is taken: the explicit one where there is one, else
/// the fallback.
pub open spec fn chosen_endpoint(explicit: Option<String>, fallback: Option<String>) -> Option<
    Seq<char>,
> {
    match (explicit, fallback) {
        (Some(url), _) => Some(url@),
        (None, Some(url)) => Some(url@),
        (None, None) => None,
    }
}

/// The resolved endpoint, or `None` where there is no candidate.
pub open spec fn resolved_url(explicit: Option<String>, fallback: Option<String>) -> Option<
    Seq<char>,
> {
    match chosen_endpoint(explicit, fallback) {
        Some(url) => Some(with_scheme(url)),
        None => None,
    }
}

/// What resolution owes for the two candidates: the resolved endpoint, or
/// the misconfiguration where there is no candidate.
pub open spec fn is_resolution(
    explicit: Option<String>,
    fallback: Option<String>,
    result: Result<String, ParseError>,
) -> bool {
    match resolved_url(explicit, fallback) {
        Some(url) => result matches Ok(resolved) && resolved@ == url,
        None => result matches Err(ParseError::MissingEndpoint),
    }
}

/// Whether `text` begins with `prefix`, character by character.
pub fn starts_with(text: &str, prefix: &str) -> (found: bool)
    ensures
        found == prefix@.is_prefix_of(text@),
{
    let wanted: usize = prefix.unicode_len();
    if text.unicode_len() < wanted {
        return false;
    }
    let mut i: usize = 0;
    while i < wanted
        invariant
            i <= wanted,
            wanted == prefix@.len(),
            wanted <= text@.len(),
            forall|k: int| 0 <= k < i ==> text@[k] == prefix@[k],
        decreases wanted - i,
    {
        if text.get_char(i) != prefix.get_char(i) {
            assert(text@.subrange(0, wanted as int)[i as int] != prefix@[i as int]);
            return false;
        }
        i += 1;
    }
    assert(prefix@ =~= text@.subrange(0, wanted as int));
    true
}

/// Resolves the endpoint to connect to. The explicit endpoint wins over the
/// fallback, and the one taken is given the scheme `http://` unless it
/// begins with `http://` or `https://` already. With neither, nothing can
/// be resolved.
pub fn parse_rpc_url(args: &Args, fallback: Option<String>) -> (result: Result<String, ParseError>)
    ensures
        is_resolution(args.rpc, fallback, result),
{
    let url: String = match &args.rpc {
        Some(url) => url.clone(),
        None => match fallback {
            Some(url) => url,
            None => {
                return Err(ParseError::MissingEndpoint);
            },
        },
    };
    if starts_with(url.as_str(), "http://") || starts_with(url.as_str(), "https://") {
        Ok(url)
    } else {
        Ok("http://".to_owned().concat(url.as_str()))
    }
}

/// Behind `http://`, every endpoint has an HTTP scheme.
proof fn lemma_prefixed_has_scheme(url: Seq<char>)
    ensures
        has_http_scheme("http://"@ + url),
{
    let scheme = "http://"@;
    assert(scheme =~= (scheme + url).subrange(0, scheme.len() as int));
}

/// A resolved endpoint begins with an HTTP scheme, whatever it was
/// resolved from.
pub proof fn lemma_resolved_url_has_scheme(explicit: Option<String>, fallback: Option<String>)
    ensures
        resolved_url(explicit, fallback) matches Some(url) ==> has_http_scheme(url),
{
    if let Some(url) = chosen_endpoint(explicit, fallback) {
        lemma_prefixed_has_scheme(url);
    }
}

/// An endpoint without an HTTP scheme is resolved to itself behind
/// `http://`, also where it begins with the letters `http`.
pub proof fn lemma_schemeless_is_prefixed(url: Seq<char>)
    requires
        !has_http_scheme(url),
    ensures
        with_scheme(url) == "http://"@ + url,
        with_scheme(url).len() == url.len() + 7,
{
    reveal_strlit("http://");
}

/// An endpoint that has a scheme is left as it is: giving a scheme twice is
/// giving it once.
pub proof fn lemma_with_scheme_idempotent(url: Seq<char>)
    ensures
        with_scheme(with_scheme(url)) == with_scheme(url),
{
    lemma_prefixed_has_scheme(url);
}

/// An explicit endpoint decides alone: the fallback is not consulted.
pub proof fn lemma_explicit_endpoint_wins(
    explicit: String,
    fallback: Option<String>,
    other_fallback: Option<String>,
)
    ensures
        resolved_url(Some(explicit), fallback) == Some(with_scheme(explicit@)),
        resolved_url(Some(explicit), fallback) == resolved_url(Some(explicit), other_fallback),
{
}

/// Resolution is deterministic: two resolutions of the same candidates
/// agree, in the endpoint they give or in failing.
pub proof fn lemma_resolution_deterministic(
    explicit: Option<String>,
    fallback: Option<String>,
    first: Result<String, ParseError>,
    second: Result<String, ParseError>,
)
    requires
        is_resolution(explicit, fallback, first),
        is_resolution(explicit, fallback, second),
    ensures
        first is Ok <==> second is Ok,
        first matches Ok(a) ==> second matches Ok(b) && a@ == b@,
        first is Err ==> first == second,
{
}

} // verus!
