//! The storage region that a bucket host names.
//!
//! Regional endpoints of the storage provider are named `s3.`, the
//! region, `.backblazeb2.com`; the region is one or more ASCII letters,
//! digits and hyphens. The pattern of that convention is matched by the
//! `regex` crate. What it captures is taken for the region only after it
//! has been confirmed against the convention here.

use vstd::prelude::*;
use crate::text::{matches_at, optional_text, to_chars};

verus! {

/// The naming convention of regional endpoints, as a pattern.
pub const REGION_PATTERN: &'static str = "^s3\\.([[:alnum:]\\-]+)\\.backblazeb2\\.com$";

/// The group of [`REGION_PATTERN`] that captures the region.
pub const REGION_GROUP: usize = 1;

/// What every regional endpoint begins with.
pub const ENDPOINT_PREFIX: &'static str = "s3.";

/// What every regional endpoint ends with.
pub const ENDPOINT_SUFFIX: &'static str = ".backblazeb2.com";

/// The text `s3.`.
pub open spec fn endpoint_prefix() -> Seq<char> {
    seq!['s', '3', '.']
}

/// The text `.backblazeb2.com`.
pub open spec fn endpoint_suffix() -> Seq<char> {
    seq!['.', 'b', 'a', 'c', 'k', 'b', 'l', 'a', 'z', 'e', 'b', '2', '.', 'c', 'o', 'm']
}

/// An ASCII letter, an ASCII digit or a hyphen.
pub open spec fn is_region_char(c: char) -> bool {
    ||| '0' <= c <= '9'
    ||| 'a' <= c <= 'z'
    ||| 'A' <= c <= 'Z'
    ||| c == '-'
}

/// A region: not empty, and made of region characters alone.
pub open spec fn is_region(region: Seq<char>) -> bool {
    &&& region.len() > 0
    &&& forall|i: int| 0 <= i < region.len() ==> is_region_char(#[trigger] region[i])
}

/// The host of the regional endpoint of `region`.
pub open spec fn regional_endpoint(region: Seq<char>) -> Seq<char> {
    endpoint_prefix() + region + endpoint_suffix()
}

/// The region that `host` names by the convention, if `host` is a
/// regional endpoint.
pub open spec fn region_of(host: Seq<char>) -> Option<Seq<char>> {
    let region = host.subrange(3, host.len() - 16);
    if host.len() > 19 && is_region(region) && host == regional_endpoint(region) {
        Some(region)
    } else {
        None
    }
}

/// What group `group` of the leftmost match of `pattern` in `haystack`
/// holds, as the `regex` crate finds it. `None` where `pattern` is no
/// valid pattern, where it matches nowhere in `haystack`, and where the
/// group took no part in the match.
pub uninterp spec fn pattern_capture(pattern: Seq<char>, group: usize, haystack: Seq<char>) -> Option<Seq<char>>;

/// Calls `regex::Regex::captures` on `haystack`, with `pattern` compiled
/// by `regex::Regex::new`, and hands out the text of group `group` as
/// `regex::Captures::get` gives it. Nothing is claimed of the result but
/// that it depends on the three arguments alone.
#[verifier::external_body]
fn capture(pattern: &str, group: usize, haystack: &str) -> (text: Option<String>)
    ensures
        optional_text(text) == pattern_capture(pattern@, group, haystack@),
{
    match regex::Regex::new(pattern) {
        Ok(compiled) => match compiled.captures(haystack) {
            Some(groups) => match groups.get(group) {
                Some(found) => Some(found.as_str().to_string()),
                None => None,
            },
            None => None,
        },
        Err(_) => None,
    }
}

/// A candidate is confirmed as the region of `host` when it is a region
/// and `host` is its regional endpoint.
pub open spec fn confirmed_region(host: Seq<char>, candidate: Option<Seq<char>>) -> Option<
    Seq<char>,
> {
    match candidate {
        Some(region) => if is_region(region) && host == regional_endpoint(region) {
            Some(region)
        } else {
            None
        },
        None => None,
    }
}

/// The region that is found for `host`: what the pattern captures in it,
/// once confirmed.
pub open spec fn region_found(host: Seq<char>) -> Option<Seq<char>> {
    confirmed_region(host, pattern_capture(REGION_PATTERN@, REGION_GROUP, host))
}

/// Whether `c` may stand in a region.
pub fn region_char(c: char) -> (ok: bool)
    ensures
        ok == is_region_char(c),
{
    ('0' <= c && c <= '9') || ('a' <= c && c <= 'z') || ('A' <= c && c <= 'Z') || c == '-'
}

/// Confirms a candidate for the region of `host`: it is handed back
/// exactly when it is a region and `host` is its regional endpoint.
pub fn confirm_region(host: &str, candidate: Option<String>) -> (region: Option<String>)
    ensures
        optional_text(region) == confirmed_region(host@, optional_text(candidate)),
{
    let text = match candidate {
        Some(text) => text,
        None => {
            return None;
        },
    };
    let chars = to_chars(host);
    let middle = to_chars(text.as_str());
    let prefix = to_chars(ENDPOINT_PREFIX);
    let suffix = to_chars(ENDPOINT_SUFFIX);
    proof {
        reveal_strlit("s3.");
        reveal_strlit(".backblazeb2.com");
        assert(prefix@ =~= endpoint_prefix());
        assert(suffix@ =~= endpoint_suffix());
    }
    if middle.len() == 0 {
        return None;
    }
    let mut i: usize = 0;
    while i < middle.len()
        invariant
            candidate == Some(text),
            middle@ == text@,
            i <= middle.len(),
            forall|j: int| 0 <= j < i ==> is_region_char(#[trigger] middle@[j]),
        decreases middle.len() - i,
    {
        if !region_char(middle[i]) {
            return None;
        }
        i += 1;
    }
    let fits = chars.len() >= prefix.len() + suffix.len() && chars.len() - prefix.len()
        - suffix.len() == middle.len();
    if fits && matches_at(&chars, 0, &prefix) && matches_at(&chars, prefix.len(), &middle)
        && matches_at(&chars, prefix.len() + middle.len(), &suffix) {
        assert(host@ =~= regional_endpoint(text@));
        Some(text)
    } else {
        proof {
            if host@ == regional_endpoint(text@) {
                assert(host@.subrange(0, 3) =~= endpoint_prefix());
                assert(host@.subrange(3, 3 + middle@.len() as int) =~= middle@);
                assert(host@.subrange(3 + middle@.len() as int, host@.len() as int)
                    =~= endpoint_suffix());
            }
        }
        None
    }
}

/// The region of `host`: what the pattern of the naming convention
/// captures in `host`, once confirmed. A region that is handed out is
/// the one that `host` names by the convention.
pub fn extract_region(host: &str) -> (region: Option<String>)
    ensures
        optional_text(region) == region_found(host@),
        region matches Some(r) ==> region_of(host@) == Some(r@),
{
    let region = confirm_region(host, capture(REGION_PATTERN, REGION_GROUP, host));
    proof {
        lemma_found_regions_are_named(host@);
    }
    region
}

/// The naming convention read both ways: `host` names `region` exactly
/// when `region` is a region and `host` is its regional endpoint.
pub proof fn lemma_region_of_endpoint(host: Seq<char>, region: Seq<char>)
    ensures
        region_of(host) == Some(region) <==> is_region(region) && host == regional_endpoint(region),
{
    if is_region(region) && host == regional_endpoint(region) {
        assert(host.subrange(3, host.len() - 16) =~= region);
    }
}

/// Whatever the pattern captures, a region that is found for a host is
/// the region that the host names by the convention; for a host that
/// names none, none is found.
pub proof fn lemma_found_regions_are_named(host: Seq<char>)
    ensures
        region_found(host) matches Some(region) ==> region_of(host) == Some(region),
        region_of(host) is None ==> region_found(host) is None,
{
    if let Some(region) = region_found(host) {
        lemma_region_of_endpoint(host, region);
    }
}

} // verus!
