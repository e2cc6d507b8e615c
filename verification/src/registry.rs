//! The location registry: which origins serve each edge location, and in
//! which order.

use vstd::prelude::*;
use vstd::pervasive::unreached;
use crate::origin::{is_priority_order, pairwise_distinct, Origin, OriginView, PriorityList};
use crate::text::str_eq;

verus! {

/// Location code that stands for the local test server.
pub const DEFAULT_LOCATION: &'static str = "SJC";

/// The origin in the central European region, as mathematics.
pub open spec fn eu_central_view() -> OriginView {
    OriginView {
        backend_name: "eu_central"@,
        bucket_name: "YOUR-EU-BUCKET"@,
        bucket_host: "YOUR-EU-ENDPOINT"@,
    }
}

/// The origin in the western region of the United States, as mathematics.
pub open spec fn us_west_view() -> OriginView {
    OriginView {
        backend_name: "us_west"@,
        bucket_name: "YOUR-US-BUCKET"@,
        bucket_host: "YOUR-US-ENDPOINT"@,
    }
}

/// The origin in the eastern region of the United States, as mathematics.
pub open spec fn us_east_view() -> OriginView {
    OriginView {
        backend_name: "us_east"@,
        bucket_name: "YOUR-US-BUCKET"@,
        bucket_host: "YOUR-US-ENDPOINT"@,
    }
}

/// The origin in the central European region. The bucket's name and host
/// are those of the deployment.
pub fn eu_central() -> (origin: Origin)
    ensures
        origin@ == eu_central_view(),
{
    Origin {
        backend_name: "eu_central",
        bucket_name: "YOUR-EU-BUCKET",
        bucket_host: "YOUR-EU-ENDPOINT",
    }
}

/// The origin in the western region of the United States. The bucket's
/// name and host are those of the deployment.
pub fn us_west() -> (origin: Origin)
    ensures
        origin@ == us_west_view(),
{
    Origin {
        backend_name: "us_west",
        bucket_name: "YOUR-US-BUCKET",
        bucket_host: "YOUR-US-ENDPOINT",
    }
}

/// The origin in the eastern region of the United States. The bucket's
/// name and host are those of the deployment.
pub fn us_east() -> (origin: Origin)
    ensures
        origin@ == us_east_view(),
{
    Origin {
        backend_name: "us_east",
        bucket_name: "YOUR-US-BUCKET",
        bucket_host: "YOUR-US-ENDPOINT",
    }
}

/// One line of the registry: a location code and the origins that serve
/// it.
pub type EntryView = (Seq<char>, Seq<OriginView>);

/// The mapping that a sequence of entries stands for. Where a code occurs
/// more than once, the entry that was added last counts.
pub open spec fn table_of(entries: Seq<EntryView>) -> Map<Seq<char>, Seq<OriginView>>
    decreases entries.len(),
{
    if entries.len() == 0 {
        Map::empty()
    } else {
        table_of(entries.drop_last()).insert(entries.last().0, entries.last().1)
    }
}

/// Whatever the table holds for a code was added as an entry for that
/// code.
pub proof fn lemma_table_holds_entries(entries: Seq<EntryView>, code: Seq<char>)
    requires
        table_of(entries).contains_key(code),
    ensures
        exists|k: int|
            0 <= k < entries.len() && #[trigger] entries[k] == (code, table_of(entries)[code]),
    decreases entries.len(),
{
    if entries.len() > 0 {
        if entries.last().0 == code {
            assert(entries[entries.len() - 1] == (code, table_of(entries)[code]));
        } else {
            lemma_table_holds_entries(entries.drop_last(), code);
            let k = choose|k: int|
                0 <= k < entries.drop_last().len() && #[trigger] entries.drop_last()[k] == (
                    code,
                    table_of(entries.drop_last())[code],
                );
            assert(entries[k] == (code, table_of(entries)[code]));
        }
    }
}

struct Entry {
    code: &'static str,
    list: PriorityList,
}

/// Mapping from location code to priority list, with the list that serves
/// every other location and the code that stands for the local test
/// server. Filled once, when the service starts, and only read afterwards.
pub struct LocationRegistry {
    entries: Vec<Entry>,
    fallback: PriorityList,
    default_location: &'static str,
}

impl LocationRegistry {
    /// The entries in the order in which they were added.
    pub closed spec fn entries(&self) -> Seq<EntryView> {
        Seq::new(self.entries@.len(), |i: int| (self.entries@[i].code@, self.entries@[i].list@))
    }

    /// The list that serves the locations without an entry.
    pub closed spec fn fallback(&self) -> Seq<OriginView> {
        self.fallback@
    }

    /// The location code that stands for the local test server.
    pub closed spec fn default_location(&self) -> Seq<char> {
        self.default_location@
    }

    /// Holds of every registry there is: each of its lists holds three
    /// origins, no two alike.
    #[verifier::type_invariant]
    pub open spec fn well_formed(&self) -> bool {
        &&& is_priority_order(self.fallback())
        &&& forall|k: int|
            0 <= k < self.entries().len() ==> is_priority_order(#[trigger] self.entries()[k].1)
    }

    /// The registry as a mapping from location code to priority list.
    pub open spec fn table(&self) -> Map<Seq<char>, Seq<OriginView>> {
        table_of(self.entries())
    }

    /// The origins that serve `code`: its entry where it has one, the
    /// fallback where it has none.
    pub open spec fn resolve_spec(&self, code: Seq<char>) -> Seq<OriginView> {
        if self.table().contains_key(code) {
            self.table()[code]
        } else {
            self.fallback()
        }
    }

    /// A registry without entries: every location is served by `fallback`.
    pub fn new(fallback: PriorityList, default_location: &'static str) -> (registry: Self)
        ensures
            registry.entries() == Seq::<EntryView>::empty(),
            registry.fallback() == fallback@,
            registry.default_location() == default_location@,
    {
        proof {
            use_type_invariant(&fallback);
        }
        let registry = LocationRegistry { entries: Vec::new(), fallback, default_location };
        assert(registry.entries() =~= Seq::<EntryView>::empty());
        registry
    }

    /// This registry with `list` serving the location `code`, in place of
    /// what served it before.
    pub fn with(self, code: &'static str, list: PriorityList) -> (registry: Self)
        ensures
            registry.entries() == self.entries().push((code@, list@)),
            registry.table() == self.table().insert(code@, list@),
            registry.fallback() == self.fallback(),
            registry.default_location() == self.default_location(),
    {
        proof {
            use_type_invariant(&self);
            use_type_invariant(&list);
        }
        let ghost before = self.entries();
        let LocationRegistry { entries, fallback, default_location } = self;
        let mut entries = entries;
        entries.push(Entry { code, list });
        assert forall|k: int| 0 <= k < entries@.len() implies is_priority_order(
            #[trigger] entries@[k].list@,
        ) by {
            if k < before.len() {
                assert(before[k].1 == entries@[k].list@);
            }
        }
        let registry = LocationRegistry { entries, fallback, default_location };
        assert(registry.entries() =~= self.entries().push((code@, list@)));
        assert(registry.entries().drop_last() =~= self.entries());
        registry
    }

    /// The origins that serve the location `code`, in order of attempt.
    /// Never fails: a code without an entry is served by the fallback.
    pub fn resolve(&self, code: &str) -> (list: PriorityList)
        ensures
            list@ == self.resolve_spec(code@),
            is_priority_order(list@),
    {
        proof {
            use_type_invariant(self);
        }
        let ghost all = self.entries();
        let mut i = self.entries.len();
        assert(all.take(i as int) =~= all);
        while i > 0
            invariant
                self.well_formed(),
                all == self.entries(),
                i <= self.entries@.len(),
                table_of(all).contains_key(code@) == table_of(all.take(i as int)).contains_key(
                    code@,
                ),
                table_of(all).contains_key(code@) ==> table_of(all)[code@] == table_of(
                    all.take(i as int),
                )[code@],
            decreases i,
        {
            proof {
                assert(all.take(i as int).drop_last() =~= all.take(i - 1));
                assert(all.take(i as int).last() == all[i - 1]);
            }
            i -= 1;
            if str_eq(self.entries[i].code, code) {
                assert(all[i as int].1 == self.entries@[i as int].list@);
                return self.entries[i].list;
            }
        }
        assert(all.take(0) =~= Seq::<EntryView>::empty());
        self.fallback
    }

    /// How many entries were added.
    pub fn len(&self) -> (n: usize)
        ensures
            n == self.entries().len(),
    {
        self.entries.len()
    }

    /// The entry that was added as number `index`.
    pub fn entry(&self, index: usize) -> (entry: (&'static str, PriorityList))
        requires
            index < self.entries().len(),
        ensures
            (entry.0@, entry.1@) == self.entries()[index as int],
    {
        (self.entries[index].code, self.entries[index].list)
    }

    /// The list that serves the locations without an entry.
    pub fn fallback_list(&self) -> (list: PriorityList)
        ensures
            list@ == self.fallback(),
    {
        self.fallback
    }

    /// The location code that stands for the local test server.
    pub fn default_location_code(&self) -> (code: &'static str)
        ensures
            code@ == self.default_location(),
    {
        self.default_location
    }
}

/// The list of three origins that are known to differ.
fn priority(first: Origin, second: Origin, third: Origin) -> (list: PriorityList)
    requires
        pairwise_distinct(seq![first@, second@, third@]),
    ensures
        list@ == seq![first@, second@, third@],
{
    match PriorityList::new(first, second, third) {
        Ok(list) => list,
        Err(_) => unreached(),
    }
}

/// Europe first, then the east and the west of the United States.
pub open spec fn europe_first() -> Seq<OriginView> {
    seq![eu_central_view(), us_east_view(), us_west_view()]
}

/// The east of the United States first, then its west, then Europe.
pub open spec fn east_first() -> Seq<OriginView> {
    seq![us_east_view(), us_west_view(), eu_central_view()]
}

/// The west of the United States first, then Europe, then the east.
pub open spec fn pacific_first() -> Seq<OriginView> {
    seq![us_west_view(), eu_central_view(), us_east_view()]
}

/// The west of the United States first, then its east, then Europe: the
/// order for every location without an entry.
pub open spec fn west_first() -> Seq<OriginView> {
    seq![us_west_view(), us_east_view(), eu_central_view()]
}

/// The entries of the compiled registry.
pub open spec fn compiled_entries() -> Seq<EntryView> {
    seq![
        ("AMS"@, europe_first()),
        ("WDC"@, east_first()),
        ("IAD"@, east_first()),
        ("BWI"@, east_first()),
        ("DCA"@, east_first()),
        ("ATL"@, east_first()),
        ("FTY"@, east_first()),
        ("PDK"@, east_first()),
        ("AKL"@, pacific_first()),
        ("BOG"@, east_first()),
        ("BOS"@, east_first()),
    ]
}

/// The compiled registry as a mapping.
pub open spec fn compiled_table() -> Map<Seq<char>, Seq<OriginView>> {
    Map::empty().insert("AMS"@, europe_first()).insert("WDC"@, east_first()).insert(
        "IAD"@,
        east_first(),
    ).insert("BWI"@, east_first()).insert("DCA"@, east_first()).insert(
        "ATL"@,
        east_first(),
    ).insert("FTY"@, east_first()).insert("PDK"@, east_first()).insert(
        "AKL"@,
        pacific_first(),
    ).insert("BOG"@, east_first()).insert("BOS"@, east_first())
}

/// The three compiled origins differ from one another.
pub proof fn lemma_compiled_origins_differ()
    ensures
        eu_central_view() != us_west_view(),
        eu_central_view() != us_east_view(),
        us_west_view() != us_east_view(),
{
    reveal_strlit("eu_central");
    reveal_strlit("us_west");
    reveal_strlit("us_east");
    assert("us_west"@[3] != "us_east"@[3]);
}

impl LocationRegistry {
    /// The registry that is compiled into the service.
    pub fn compiled() -> (registry: Self)
        ensures
            registry.entries() == compiled_entries(),
            registry.table() == compiled_table(),
            registry.fallback() == west_first(),
            registry.default_location() == DEFAULT_LOCATION@,
    {
        proof {
            lemma_compiled_origins_differ();
        }
        let europe = priority(eu_central(), us_east(), us_west());
        let east = priority(us_east(), us_west(), eu_central());
        let pacific = priority(us_west(), eu_central(), us_east());
        let west = priority(us_west(), us_east(), eu_central());
        let registry = LocationRegistry::new(west, DEFAULT_LOCATION).with("AMS", europe).with(
            "WDC",
            east,
        ).with("IAD", east).with("BWI", east).with("DCA", east).with("ATL", east).with(
            "FTY",
            east,
        ).with("PDK", east).with("AKL", pacific).with("BOG", east).with("BOS", east);
        assert(registry.entries() =~= compiled_entries());
        registry
    }
}

} // verus!
