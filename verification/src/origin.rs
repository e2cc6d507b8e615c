//! Storage origins and the order in which they are tried.

use vstd::prelude::*;
use vstd::string::StringExecFns;
use crate::error::ConfigError;
use crate::text::str_eq;

verus! {

/// One storage endpoint, together with the pre-declared network
/// destination through which it is reached.
#[derive(Clone, Copy, Debug, PartialEq, Eq)]
pub struct Origin {
    /// Name of the pre-declared network destination.
    pub backend_name: &'static str,
    /// Name of the bucket that content is served from.
    pub bucket_name: &'static str,
    /// Host on which the bucket is served.
    pub bucket_host: &'static str,
}

/// An origin as mathematics: its three texts.
pub struct OriginView {
    pub backend_name: Seq<char>,
    pub bucket_name: Seq<char>,
    pub bucket_host: Seq<char>,
}

impl View for Origin {
    type V = OriginView;

    open spec fn view(&self) -> OriginView {
        OriginView {
            backend_name: self.backend_name@,
            bucket_name: self.bucket_name@,
            bucket_host: self.bucket_host@,
        }
    }
}

/// The host under which an origin serves its bucket: the bucket's name, a
/// dot, and the bucket's host.
pub open spec fn bucket_address(origin: OriginView) -> Seq<char> {
    origin.bucket_name + seq!['.'] + origin.bucket_host
}

/// No origin occurs twice in `origins`.
pub open spec fn pairwise_distinct(origins: Seq<OriginView>) -> bool {
    forall|i: int, j: int| 0 <= i < j < origins.len() ==> origins[i] != origins[j]
}

/// `origins` can serve as a priority list: three origins, no two alike.
pub open spec fn is_priority_order(origins: Seq<OriginView>) -> bool {
    origins.len() == 3 && pairwise_distinct(origins)
}

impl Origin {
    /// The value of the `Host` header of a request to this origin.
    pub fn host_header(&self) -> (host: String)
        ensures
            host@ == bucket_address(self@),
    {
        let mut host = String::from_str(self.bucket_name);
        host.append(".");
        host.append(self.bucket_host);
        proof {
            reveal_strlit(".");
        }
        host
    }

    /// Whether two origins agree in all three texts.
    pub fn same_as(&self, other: &Origin) -> (same: bool)
        ensures
            same == (self@ == other@),
    {
        str_eq(self.backend_name, other.backend_name) && str_eq(
            self.bucket_name,
            other.bucket_name,
        ) && str_eq(self.bucket_host, other.bucket_host)
    }
}

/// Three distinct origins in the order in which they are attempted.
#[derive(Clone, Copy, Debug, PartialEq, Eq)]
pub struct PriorityList {
    origins: [Origin; 3],
}

impl View for PriorityList {
    type V = Seq<OriginView>;

    closed spec fn view(&self) -> Seq<OriginView> {
        Seq::new(3, |i: int| self.origins@[i]@)
    }
}

impl PriorityList {
    /// Holds of every list there is: three origins, no two alike.
    #[verifier::type_invariant]
    pub open spec fn well_formed(&self) -> bool {
        is_priority_order(self@)
    }

    /// The list of `first`, `second` and `third`, in that order of
    /// attempt. Refused when two of them are the same origin.
    pub fn new(first: Origin, second: Origin, third: Origin) -> (list: Result<
        PriorityList,
        ConfigError,
    >)
        ensures
            list is Ok <==> pairwise_distinct(seq![first@, second@, third@]),
            list matches Ok(l) ==> l@ == seq![first@, second@, third@],
            list matches Err(e) ==> e == ConfigError::DuplicateOrigin,
    {
        if first.same_as(&second) {
            return Err(ConfigError::DuplicateOrigin);
        }
        if first.same_as(&third) {
            return Err(ConfigError::DuplicateOrigin);
        }
        if second.same_as(&third) {
            return Err(ConfigError::DuplicateOrigin);
        }
        let origins = [first, second, third];
        Ok(PriorityList { origins })
    }

    /// The origin of attempt `index`.
    pub fn get(&self, index: usize) -> (origin: Origin)
        requires
            index < 3,
        ensures
            origin@ == self@[index as int],
    {
        self.origins[index]
    }

    /// How many origins the list holds: always three.
    pub fn len(&self) -> (n: usize)
        ensures
            n == 3,
            n == self@.len(),
    {
        3
    }
}

} // verus!
