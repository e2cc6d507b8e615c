//! The edge location that a request counts for.

use vstd::prelude::*;
use vstd::string::StringExecFns;
use crate::error::LocationError;
use crate::text::{char_range, matches_at, occurs_at, optional_text, str_eq, to_chars};

verus! {

/// Host name under which the local test server runs.
pub const LOCAL_TEST_HOST: &'static str = "localhost";

/// Query parameter by which a request chooses its own location.
pub const LOCATION_PARAMETER: &'static str = "pop";

/// Length of the first segment of a query: what stands before its first
/// `&`, or all of it where it has none.
pub open spec fn segment_len(query: Seq<char>) -> nat
    decreases query.len(),
{
    if query.len() == 0 || query[0] == '&' {
        0
    } else {
        1 + segment_len(query.drop_first())
    }
}

/// The value of the parameter `name` in a query that is a list of
/// `name=value` segments, separated by `&`: what follows `name=` in the
/// first segment that begins so. Nothing is decoded.
pub open spec fn parameter_value(query: Seq<char>, name: Seq<char>) -> Option<Seq<char>>
    decreases query.len(),
{
    let end = segment_len(query) as int;
    let segment = query.take(end);
    let key = name.push('=');
    if occurs_at(segment, 0, key) {
        Some(segment.skip(key.len() as int))
    } else if end < query.len() {
        parameter_value(query.skip(end + 1), name)
    } else {
        None
    }
}

/// The first segment of `query` ends where its first `&` stands.
pub proof fn lemma_segment_len(query: Seq<char>, end: int)
    requires
        0 <= end <= query.len(),
        forall|j: int| 0 <= j < end ==> query[j] != '&',
        end == query.len() || query[end] == '&',
    ensures
        segment_len(query) == end,
    decreases end,
{
    if end > 0 {
        lemma_segment_len(query.drop_first(), end - 1);
    }
}

/// The value of the parameter `name` in `query`, if `query` holds one.
pub fn query_parameter(query: &str, name: &str) -> (value: Option<String>)
    ensures
        optional_text(value) == parameter_value(query@, name@),
{
    let chars = to_chars(query);
    let mut key = to_chars(name);
    key.push('=');
    let n = chars.len();
    let mut start: usize = 0;
    assert(query@.skip(0) =~= query@);
    loop
        invariant
            chars@ == query@,
            key@ == name@.push('='),
            n == chars.len(),
            start <= n,
            parameter_value(query@, name@) == parameter_value(query@.skip(start as int), name@),
        decreases n - start,
    {
        let mut end = start;
        while end < n && chars[end] != '&'
            invariant
                n == chars.len(),
                start <= end <= n,
                forall|j: int| start <= j < end ==> chars@[j] != '&',
            decreases n - end,
        {
            end += 1;
        }
        let ghost rest = query@.skip(start as int);
        let ghost segment = rest.take(end - start);
        proof {
            lemma_segment_len(rest, end - start);
        }
        if key.len() <= end - start && matches_at(&chars, start, &key) {
            proof {
                assert(segment.subrange(0, key@.len() as int) =~= query@.subrange(
                    start as int,
                    start + key@.len(),
                ));
            }
            return Some(char_range(query, start + key.len(), end));
        }
        proof {
            if occurs_at(segment, 0, key@) {
                assert(segment.subrange(0, key@.len() as int) =~= query@.subrange(
                    start as int,
                    start + key@.len(),
                ));
            }
        }
        if end == n {
            return None;
        }
        proof {
            assert(rest.skip(end - start + 1) =~= query@.skip(end + 1));
        }
        start = end + 1;
    }
}

/// What the host environment reports of the place where the service
/// runs.
#[derive(Clone, Debug, PartialEq, Eq)]
pub struct HostEnvironment {
    /// Name of the host on which the service runs, if reported.
    pub host_name: Option<String>,
    /// Code of the serving location, if reported.
    pub location: Option<String>,
}

/// A host environment as mathematics.
pub struct HostEnvironmentView {
    pub host_name: Option<Seq<char>>,
    pub location: Option<Seq<char>>,
}

impl View for HostEnvironment {
    type V = HostEnvironmentView;

    open spec fn view(&self) -> HostEnvironmentView {
        HostEnvironmentView {
            host_name: optional_text(self.host_name),
            location: optional_text(self.location),
        }
    }
}

/// The location that a request counts for. A location that the request
/// chooses itself comes first. Else the local test server stands for
/// `default_location`, and in production the location is the one that the
/// host reports.
pub open spec fn location_of(
    chosen: Option<Seq<char>>,
    environment: HostEnvironmentView,
    default_location: Seq<char>,
) -> Result<Seq<char>, LocationError> {
    match chosen {
        Some(code) => Ok(code),
        None => match environment.host_name {
            None => Err(LocationError::MissingHostName),
            Some(host_name) => if host_name == LOCAL_TEST_HOST@ {
                Ok(default_location)
            } else {
                match environment.location {
                    Some(code) => Ok(code),
                    None => Err(LocationError::MissingLocation),
                }
            },
        },
    }
}

/// The text of a location, or the reason why there is none.
pub open spec fn located(code: Result<String, LocationError>) -> Result<
    Seq<char>,
    LocationError,
> {
    match code {
        Ok(c) => Ok(c@),
        Err(e) => Err(e),
    }
}

/// The location that a request counts for, where `chosen` is the location
/// that the request chooses itself, if it chooses one.
pub fn resolve_location(
    chosen: Option<String>,
    environment: &HostEnvironment,
    default_location: &str,
) -> (code: Result<String, LocationError>)
    ensures
        located(code) == location_of(optional_text(chosen), environment@, default_location@),
{
    if let Some(code) = chosen {
        return Ok(code);
    }
    match &environment.host_name {
        None => Err(LocationError::MissingHostName),
        Some(host_name) => {
            if str_eq(host_name.as_str(), LOCAL_TEST_HOST) {
                Ok(String::from_str(default_location))
            } else {
                match &environment.location {
                    Some(code) => Ok(code.clone()),
                    None => Err(LocationError::MissingLocation),
                }
            }
        },
    }
}

} // verus!
