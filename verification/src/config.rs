//! The configuration of a router, checked once before it serves.

use vstd::prelude::*;
use crate::auth::Authenticator;
use crate::error::ConfigError;
use crate::origin::{Origin, OriginView, PriorityList};
use crate::region::{extract_region, region_found};
use crate::registry::{lemma_table_holds_entries, table_of, EntryView, LocationRegistry};

verus! {

/// For every host in `list` a region is found.
pub open spec fn list_conforms(list: Seq<OriginView>) -> bool {
    forall|i: int| 0 <= i < list.len() ==> region_found(#[trigger] list[i].bucket_host) is Some
}

/// For every host of every configured origin a region is found.
pub open spec fn registry_conforms(registry: LocationRegistry) -> bool {
    &&& list_conforms(registry.fallback())
    &&& forall|k: int|
        0 <= k < registry.entries().len() ==> list_conforms(#[trigger] registry.entries()[k].1)
}

/// `origin` is one of the configured origins.
pub open spec fn is_configured(registry: LocationRegistry, origin: OriginView) -> bool {
    ||| registry.fallback().contains(origin)
    ||| exists|k: int|
        0 <= k < registry.entries().len() && (#[trigger] registry.entries()[k]).1.contains(origin)
}

/// The first origin of `list` for whose host no region is found.
pub open spec fn first_unfound(list: Seq<OriginView>) -> Option<OriginView>
    decreases list.len(),
{
    if list.len() == 0 {
        None
    } else if region_found(list[0].bucket_host) is None {
        Some(list[0])
    } else {
        first_unfound(list.drop_first())
    }
}

/// The first origin of the lists of `entries` for whose host no region
/// is found.
pub open spec fn first_unfound_in(entries: Seq<EntryView>) -> Option<OriginView>
    decreases entries.len(),
{
    if entries.len() == 0 {
        None
    } else {
        match first_unfound(entries[0].1) {
            Some(origin) => Some(origin),
            None => first_unfound_in(entries.drop_first()),
        }
    }
}

/// The first configured origin for whose host no region is found: the
/// fallback is gone through first, then the entries in the order in
/// which they were added.
pub open spec fn first_offender(registry: LocationRegistry) -> Option<OriginView> {
    match first_unfound(registry.fallback()) {
        Some(origin) => Some(origin),
        None => first_unfound_in(registry.entries()),
    }
}

/// A list has a first origin without a region exactly when it does not
/// conform, and that origin is one of the list.
pub proof fn lemma_first_unfound(list: Seq<OriginView>)
    ensures
        first_unfound(list) is None <==> list_conforms(list),
        first_unfound(list) matches Some(origin) ==> list.contains(origin) && region_found(
            origin.bucket_host,
        ) is None,
    decreases list.len(),
{
    if list.len() > 0 {
        let rest = list.drop_first();
        lemma_first_unfound(rest);
        if region_found(list[0].bucket_host) is Some {
            if list_conforms(rest) {
                assert forall|i: int| 0 <= i < list.len() implies region_found(
                    #[trigger] list[i].bucket_host,
                ) is Some by {
                    if i > 0 {
                        assert(list[i] == rest[i - 1]);
                    }
                }
            } else {
                let i = choose|i: int|
                    0 <= i < rest.len() && !(region_found(#[trigger] rest[i].bucket_host) is Some);
                assert(list[i + 1] == rest[i]);
            }
            if let Some(origin) = first_unfound(rest) {
                let i = choose|i: int| 0 <= i < rest.len() && rest[i] == origin;
                assert(list[i + 1] == origin);
            }
        } else {
            assert(list.contains(list[0]));
        }
    }
}

/// A registry has a first offender exactly when it does not conform, and
/// the offender is one of its configured origins.
pub proof fn lemma_first_offender(registry: LocationRegistry)
    ensures
        first_offender(registry) is None <==> registry_conforms(registry),
        first_offender(registry) matches Some(origin) ==> is_configured(registry, origin)
            && region_found(origin.bucket_host) is None,
{
    lemma_first_unfound(registry.fallback());
    lemma_first_unfound_in(registry.entries());
}

/// The same of a sequence of entries.
pub proof fn lemma_first_unfound_in(entries: Seq<EntryView>)
    ensures
        first_unfound_in(entries) is None <==> forall|k: int|
            0 <= k < entries.len() ==> list_conforms(#[trigger] entries[k].1),
        first_unfound_in(entries) matches Some(origin) ==> region_found(origin.bucket_host) is None
            && exists|k: int| 0 <= k < entries.len() && (#[trigger] entries[k]).1.contains(origin),
    decreases entries.len(),
{
    if entries.len() > 0 {
        let rest = entries.drop_first();
        lemma_first_unfound(entries[0].1);
        lemma_first_unfound_in(rest);
        if first_unfound(entries[0].1) is None {
            if first_unfound_in(rest) is None {
                assert forall|k: int| 0 <= k < entries.len() implies list_conforms(
                    #[trigger] entries[k].1,
                ) by {
                    if k > 0 {
                        assert(entries[k] == rest[k - 1]);
                    }
                }
            } else {
                let origin = first_unfound_in(rest)->Some_0;
                let k = choose|k: int|
                    0 <= k < rest.len() && (#[trigger] rest[k]).1.contains(origin);
                assert(entries[k + 1] == rest[k]);
                assert(!list_conforms(rest[k].1));
            }
        } else {
            assert(entries[0].1.contains(first_unfound(entries[0].1)->Some_0));
        }
    }
}

/// The view of an optional origin.
pub open spec fn optional_origin(origin: Option<Origin>) -> Option<OriginView> {
    match origin {
        Some(o) => Some(o@),
        None => None,
    }
}

/// The first origin of `list` for whose host no region is found, if
/// there is one.
fn first_without_region(list: &PriorityList) -> (found: Option<Origin>)
    ensures
        optional_origin(found) == first_unfound(list@),
{
    proof {
        use_type_invariant(list);
        reveal_with_fuel(first_unfound, 4);
        assert(list@.drop_first()[0] == list@[1]);
        assert(list@.drop_first().drop_first()[0] == list@[2]);
    }
    let first = list.get(0);
    if extract_region(first.bucket_host).is_none() {
        return Some(first);
    }
    let second = list.get(1);
    if extract_region(second.bucket_host).is_none() {
        return Some(second);
    }
    let third = list.get(2);
    if extract_region(third.bucket_host).is_none() {
        return Some(third);
    }
    None
}

/// A registry and an authenticator that fit together: where requests are
/// signed, a region is found for the host of every configured origin.
pub struct RouterConfig {
    registry: LocationRegistry,
    authenticator: Authenticator,
}

impl RouterConfig {
    /// The registry that requests are routed by.
    pub closed spec fn registry(&self) -> LocationRegistry {
        self.registry
    }

    /// How attempts are authenticated.
    pub closed spec fn authenticator(&self) -> Authenticator {
        self.authenticator
    }

    /// Holds of every configuration there is: its registry is well
    /// formed, and where requests are signed, a region
    /// is found for the host of every configured origin.
    #[verifier::type_invariant]
    pub open spec fn valid(&self) -> bool {
        &&& self.registry().well_formed()
        &&& self.authenticator().signs() ==> registry_conforms(self.registry())
    }

    /// Checks the configuration before any request is served. Without
    /// signing every registry is accepted. With signing, the registry is
    /// accepted when a region is found for the host of every configured
    /// origin, and refused with the first origin for which none is found.
    pub fn new(registry: LocationRegistry, authenticator: Authenticator) -> (config: Result<
        RouterConfig,
        ConfigError,
    >)
        ensures
            config is Ok <==> (authenticator.signs() ==> registry_conforms(registry)),
            config matches Ok(c) ==> c.registry() == registry && c.authenticator()
                == authenticator,
            config matches Err(e) ==> e matches ConfigError::NonConformingHost(origin) && Some(
                origin@,
            ) == first_offender(registry),
    {
        proof {
            use_type_invariant(&registry);
            lemma_first_offender(registry);
        }
        if authenticator.is_signing() {
            let fallback = registry.fallback_list();
            if let Some(origin) = first_without_region(&fallback) {
                return Err(ConfigError::NonConformingHost(origin));
            }
            let ghost entries = registry.entries();
            let n = registry.len();
            let mut k: usize = 0;
            assert(entries.skip(0) =~= entries);
            while k < n
                invariant
                    authenticator.signs(),
                    first_offender(registry) == first_unfound_in(entries),
                    first_offender(registry) is None <==> registry_conforms(registry),
                    entries == registry.entries(),
                    n == entries.len(),
                    k <= n,
                    first_unfound_in(entries) == first_unfound_in(entries.skip(k as int)),
                decreases n - k,
            {
                let entry = registry.entry(k);
                assert(entries.skip(k as int)[0] == entries[k as int]);
                assert(entries.skip(k as int).drop_first() =~= entries.skip(k + 1));
                if let Some(origin) = first_without_region(&entry.1) {
                    return Err(ConfigError::NonConformingHost(origin));
                }
                k += 1;
            }
        }
        Ok(RouterConfig { registry, authenticator })
    }

    /// How attempts are authenticated.
    pub fn authenticator_kind(&self) -> (authenticator: Authenticator)
        ensures
            authenticator == self.authenticator(),
    {
        self.authenticator
    }

    /// The location code that stands for the local test server.
    pub fn default_location_code(&self) -> (code: &'static str)
        ensures
            code@ == self.registry().default_location(),
    {
        self.registry.default_location_code()
    }

    /// The origins that serve the location `code`, in order of attempt.
    /// Where requests are signed, a region is found for the host of each of
    /// them.
    pub fn resolve(&self, code: &str) -> (list: PriorityList)
        ensures
            list@ == self.registry().resolve_spec(code@),
            self.authenticator().signs() ==> list_conforms(list@),
    {
        proof {
            use_type_invariant(self);
            if self.registry.table().contains_key(code@) {
                let entries = self.registry.entries();
                lemma_table_holds_entries(entries, code@);
                let k = choose|k: int|
                    0 <= k < entries.len() && #[trigger] entries[k] == (
                        code@,
                        table_of(entries)[code@],
                    );
                assert(list_conforms(entries[k].1) || !self.authenticator.signs());
            }
        }
        self.registry.resolve(code)
    }
}

} // verus!
