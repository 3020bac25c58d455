//! Table properties reduced to plain values: the per-table record with
//! its user-collected property map, and the collection keying such
//! records by table name.
//!
//! The engine builds these; here they are modelled as data a caller can
//! construct and walk, with the property map as their meaning.

use vstd::prelude::*;

verus! {

/// The map a list of property records denotes. Records are only added
/// under fresh keys, so no binding ever shadows another.
pub closed spec fn prop_map(entries: Seq<(Vec<u8>, Vec<u8>)>) -> Map<Seq<u8>, Seq<u8>>
    decreases entries.len(),
{
    if entries.len() == 0 {
        Map::empty()
    } else {
        prop_map(entries.drop_last()).insert(entries.last().0@, entries.last().1@)
    }
}

/// Extending a record list by one entry inserts that entry's binding into
/// the denoted map.
proof fn lemma_prop_map_take_step(entries: Seq<(Vec<u8>, Vec<u8>)>, i: int)
    requires
        0 <= i < entries.len(),
    ensures
        prop_map(entries.take(i + 1)) == prop_map(entries.take(i)).insert(
            entries[i].0@,
            entries[i].1@,
        ),
{
    let prefix = entries.take(i + 1);
    assert(prefix.drop_last() =~= entries.take(i));
    assert(prefix.last() == entries[i]);
}

/// Whether two byte strings hold the same bytes.
fn bytes_equal(a: &Vec<u8>, b: &[u8]) -> (r: bool)
    ensures
        r == (a@ == b@),
{
    if a.len() != b.len() {
        return false;
    }
    let n = a.len();
    let mut i: usize = 0;
    while i < n
        invariant
            n == a@.len(),
            n == b@.len(),
            0 <= i <= n,
            forall|k: int| 0 <= k < i ==> a@[k] == b@[k],
        decreases n - i,
    {
        if a[i] != b[i] {
            return false;
        }
        i = i + 1;
    }
    proof {
        assert(a@ =~= b@);
    }
    true
}

/// Whether no two records bind the same key.
spec fn distinct_prop_keys(entries: Seq<(Vec<u8>, Vec<u8>)>) -> bool {
    forall|p: int, q: int|
        0 <= p < q < entries.len() ==> (#[trigger] entries[p].0@) != (#[trigger] entries[q].0@)
}

/// Every key bound by some record is in the denoted map.
proof fn lemma_prop_map_contains_entry(entries: Seq<(Vec<u8>, Vec<u8>)>, p: int)
    requires
        0 <= p < entries.len(),
    ensures
        prop_map(entries).contains_key(entries[p].0@),
    decreases entries.len(),
{
    if p < entries.len() - 1 {
        lemma_prop_map_contains_entry(entries.drop_last(), p);
        assert(entries.drop_last()[p] == entries[p]);
    }
}

/// With distinct keys, no record added after position `i` shadows the
/// binding record `i` made: the map of any longer prefix still binds its
/// key to its value.
proof fn lemma_prop_map_later_no_shadow(
    entries: Seq<(Vec<u8>, Vec<u8>)>,
    k: Seq<u8>,
    i: int,
    j: int,
)
    requires
        distinct_prop_keys(entries),
        0 <= i < entries.len(),
        entries[i].0@ == k,
        i < j <= entries.len(),
    ensures
        prop_map(entries.take(j)).contains_key(k),
        prop_map(entries.take(j))[k] == entries[i].1@,
    decreases j - i,
{
    if j == i + 1 {
        lemma_prop_map_take_step(entries, i);
    } else {
        lemma_prop_map_later_no_shadow(entries, k, i, j - 1);
        lemma_prop_map_take_step(entries, j - 1);
        assert(entries[j - 1].0@ != k);
    }
}

/// The properties a table's collectors gathered: byte-string keys bound
/// to byte-string values, in insertion order, each key bound once.
pub struct UserCollectedProperties {
    entries: Vec<(Vec<u8>, Vec<u8>)>,
}

impl View for UserCollectedProperties {
    type V = Map<Seq<u8>, Seq<u8>>;

    closed spec fn view(&self) -> Map<Seq<u8>, Seq<u8>> {
        prop_map(self.entries@)
    }
}

impl UserCollectedProperties {
    /// No two records bind the same key. Constructors establish this
    /// and insertion keeps it.
    pub closed spec fn wf(&self) -> bool {
        distinct_prop_keys(self.entries@)
    }

    /// How many properties are held.
    pub closed spec fn count(&self) -> nat {
        self.entries@.len()
    }

    /// The key-value pair at position `i`, in insertion order.
    pub closed spec fn entry_at(&self, i: int) -> (Seq<u8>, Seq<u8>) {
        (self.entries@[i].0@, self.entries@[i].1@)
    }

    /// An empty property map.
    pub fn new() -> (r: UserCollectedProperties)
        ensures
            r.wf(),
            r@ == Map::<Seq<u8>, Seq<u8>>::empty(),
            r.count() == 0,
    {
        UserCollectedProperties { entries: Vec::new() }
    }

    /// Binds a fresh key to a value.
    pub fn insert(&mut self, key: Vec<u8>, value: Vec<u8>)
        requires
            old(self).wf(),
            !old(self)@.contains_key(key@),
        ensures
            final(self).wf(),
            final(self)@ == old(self)@.insert(key@, value@),
            final(self).count() == old(self).count() + 1,
            final(self).entry_at(old(self).count() as int) == (key@, value@),
            forall|i: int|
                0 <= i < old(self).count() ==> final(self).entry_at(i) == old(self).entry_at(i),
    {
        let ghost old_entries = self.entries@;
        let ghost k = key@;
        self.entries.push((key, value));
        proof {
            assert(self.entries@.drop_last() =~= old_entries);
            assert forall|p: int| 0 <= p < old_entries.len() implies (#[trigger] old_entries[p].0@)
                != k by {
                if old_entries[p].0@ == k {
                    lemma_prop_map_contains_entry(old_entries, p);
                }
            }
            assert(distinct_prop_keys(self.entries@));
        }
    }

    /// The value bound to `index`, when one is.
    pub fn get(&self, index: &[u8]) -> (r: Option<&Vec<u8>>)
        requires
            self.wf(),
        ensures
            match r {
                Some(v) => self@.contains_key(index@) && v@ == self@[index@],
                None => !self@.contains_key(index@),
            },
    {
        let n = self.entries.len();
        let mut i: usize = 0;
        while i < n
            invariant
                self.wf(),
                n == self.entries@.len(),
                0 <= i <= n,
                !prop_map(self.entries@.take(i as int)).contains_key(index@),
            decreases n - i,
        {
            proof {
                lemma_prop_map_take_step(self.entries@, i as int);
            }
            if bytes_equal(&self.entries[i].0, index) {
                proof {
                    lemma_prop_map_later_no_shadow(
                        self.entries@,
                        index@,
                        i as int,
                        self.entries@.len() as int,
                    );
                    assert(self.entries@.take(self.entries@.len() as int) =~= self.entries@);
                }
                return Some(&self.entries[i].1);
            }
            i = i + 1;
        }
        proof {
            assert(self.entries@.take(n as int) =~= self.entries@);
        }
        None
    }

    /// How many properties are held.
    pub fn len(&self) -> (n: usize)
        ensures
            n == self.count(),
    {
        self.entries.len()
    }

    /// Whether no property is held.
    pub fn is_empty(&self) -> (b: bool)
        ensures
            b == (self.count() == 0),
    {
        self.entries.len() == 0
    }

    /// A cursor over the properties in insertion order.
    pub fn iter<'a>(&'a self) -> (r: UserCollectedPropertiesIter<'a>)
        ensures
            r.props() == *self,
            r.position() == 0,
    {
        UserCollectedPropertiesIter { props: self, pos: 0 }
    }
}

/// A cursor over a property map, yielding its pairs in insertion order.
pub struct UserCollectedPropertiesIter<'a> {
    props: &'a UserCollectedProperties,
    pos: usize,
}

impl<'a> UserCollectedPropertiesIter<'a> {
    /// The property map walked.
    pub closed spec fn props(&self) -> UserCollectedProperties {
        *self.props
    }

    /// How many pairs were yielded.
    pub closed spec fn position(&self) -> int {
        self.pos as int
    }

    /// A cursor at the start of `props`.
    pub fn new(props: &'a UserCollectedProperties) -> (r: UserCollectedPropertiesIter<'a>)
        ensures
            r.props() == *props,
            r.position() == 0,
    {
        UserCollectedPropertiesIter { props, pos: 0 }
    }

    /// The next pair, or nothing once all were yielded.
    pub fn next(&mut self) -> (r: Option<(&'a Vec<u8>, &'a Vec<u8>)>)
        ensures
            final(self).props() == old(self).props(),
            match r {
                Some(p) => old(self).position() < old(self).props().count() && final(self).position() == old(self).position() + 1 && (p.0@, p.1@) == old(self).props().entry_at(old(self).position()),
                None => old(self).position() >= old(self).props().count() && final(self).position()
                    == old(self).position(),
            },
    {
        if self.pos < self.props.entries.len() {
            let entry = &self.props.entries[self.pos];
            self.pos = self.pos + 1;
            Some((&entry.0, &entry.1))
        } else {
            None
        }
    }
}

/// One table's properties: the entry count the engine reports for it and
/// the user-collected property map gathered while it was built.
pub struct TableProperties {
    num_entries: u64,
    user: UserCollectedProperties,
}

impl TableProperties {
    /// The entry count reported.
    pub closed spec fn num_entries_spec(&self) -> u64 {
        self.num_entries
    }

    /// The user-collected property map.
    pub closed spec fn user_spec(&self) -> UserCollectedProperties {
        self.user
    }

    /// A record of a table with the given entry count and user-collected
    /// properties.
    pub fn new(num_entries: u64, user: UserCollectedProperties) -> (r: TableProperties)
        ensures
            r.num_entries_spec() == num_entries,
            r.user_spec() == user,
    {
        TableProperties { num_entries, user }
    }

    /// How many entries the table holds.
    pub fn num_entries(&self) -> (n: u64)
        ensures
            n == self.num_entries_spec(),
    {
        self.num_entries
    }

    /// The user-collected properties of this table.
    pub fn user_collected_properties(&self) -> (r: &UserCollectedProperties)
        ensures
            *r == self.user_spec(),
    {
        &self.user
    }
}

/// The properties of a set of tables, keyed by table name in insertion
/// order.
pub struct TablePropertiesCollection {
    entries: Vec<(String, TableProperties)>,
}

impl TablePropertiesCollection {
    /// How many tables are held.
    pub closed spec fn count(&self) -> nat {
        self.entries@.len()
    }

    /// The name of the table at position `i`.
    pub closed spec fn key_at(&self, i: int) -> Seq<char> {
        self.entries@[i].0@
    }

    /// The properties of the table at position `i`.
    pub closed spec fn props_at(&self, i: int) -> TableProperties {
        self.entries@[i].1
    }

    /// An empty collection.
    pub fn new() -> (r: TablePropertiesCollection)
        ensures
            r.count() == 0,
    {
        TablePropertiesCollection { entries: Vec::new() }
    }

    /// Appends one table's properties under its name.
    pub fn add(&mut self, key: String, props: TableProperties)
        ensures
            final(self).count() == old(self).count() + 1,
            final(self).key_at(old(self).count() as int) == key@,
            final(self).props_at(old(self).count() as int) == props,
            forall|i: int|
                0 <= i < old(self).count() ==> final(self).key_at(i) == old(self).key_at(i)
                    && final(self).props_at(i) == old(self).props_at(i),
    {
        self.entries.push((key, props));
    }

    /// How many tables are held.
    pub fn len(&self) -> (n: usize)
        ensures
            n == self.count(),
    {
        self.entries.len()
    }

    /// Whether no table is held.
    pub fn is_empty(&self) -> (b: bool)
        ensures
            b == (self.count() == 0),
    {
        self.entries.len() == 0
    }

    /// A cursor over the collection in insertion order.
    pub fn iter<'a>(&'a self) -> (r: TablePropertiesCollectionIter<'a>)
        ensures
            r.collection() == *self,
            r.position() == 0,
    {
        TablePropertiesCollectionIter { coll: self, pos: 0 }
    }
}

/// A cursor over a collection, yielding each table's name and properties
/// in insertion order.
pub struct TablePropertiesCollectionIter<'a> {
    coll: &'a TablePropertiesCollection,
    pos: usize,
}

impl<'a> TablePropertiesCollectionIter<'a> {
    /// The collection walked.
    pub closed spec fn collection(&self) -> TablePropertiesCollection {
        *self.coll
    }

    /// How many tables were yielded.
    pub closed spec fn position(&self) -> int {
        self.pos as int
    }

    /// A cursor at the start of `coll`.
    pub fn new(coll: &'a TablePropertiesCollection) -> (r: TablePropertiesCollectionIter<'a>)
        ensures
            r.collection() == *coll,
            r.position() == 0,
    {
        TablePropertiesCollectionIter { coll, pos: 0 }
    }

    /// The next table's name and properties, or nothing once all were
    /// yielded.
    pub fn next(&mut self) -> (r: Option<(&'a String, &'a TableProperties)>)
        ensures
            final(self).collection() == old(self).collection(),
            match r {
                Some(p) => old(self).position() < old(self).collection().count() && final(self).position() == old(self).position() + 1 && p.0@ == old(self).collection().key_at(old(self).position()) && *p.1 == old(self).collection().props_at(old(self).position()),
                None => old(self).position() >= old(self).collection().count() && final(self).position() == old(self).position(),
            },
    {
        if self.pos < self.coll.entries.len() {
            let entry = &self.coll.entries[self.pos];
            self.pos = self.pos + 1;
            Some((&entry.0, &entry.1))
        } else {
            None
        }
    }
}

} // verus!
