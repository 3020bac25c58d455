//! A model of the opaque synchronous key-value store that the bridge
//! reads from.
//!
//! The store is kept as plain values: a list of put records whose view is
//! the map from each key to the value of its latest put. A lookup answers
//! with the value and an ok status when the key is present, and with the
//! empty value and a not-found status when it is absent.

use vstd::prelude::*;

use crate::status::{RustStatus, StatusCode, StatusSeverity, StatusSubCode};

verus! {

/// The map a list of put records denotes: later puts win.
pub closed spec fn kv_map(entries: Seq<(String, String)>) -> Map<Seq<char>, Seq<char>>
    decreases entries.len(),
{
    if entries.len() == 0 {
        Map::empty()
    } else {
        kv_map(entries.drop_last()).insert(entries.last().0@, entries.last().1@)
    }
}

/// The status every successful lookup carries.
pub open spec fn status_ok() -> RustStatus {
    (RustStatus {
        code: StatusCode::kOk,
        sub_code: StatusSubCode::kNone,
        severity: StatusSeverity::kNoError,
    })
}

/// The status every failed lookup carries.
pub open spec fn status_not_found() -> RustStatus {
    (RustStatus {
        code: StatusCode::kNotFound,
        sub_code: StatusSubCode::kNone,
        severity: StatusSeverity::kNoError,
    })
}

/// The value a lookup of `k` in `m` yields: the stored value when the key
/// is present, the empty value when it is absent.
pub open spec fn lookup_value(m: Map<Seq<char>, Seq<char>>, k: Seq<char>) -> Seq<char> {
    if m.contains_key(k) {
        m[k]
    } else {
        Seq::empty()
    }
}

/// The status a lookup of `k` in `m` yields: ok when the key is present,
/// not-found when it is absent.
pub open spec fn lookup_status(m: Map<Seq<char>, Seq<char>>, k: Seq<char>) -> RustStatus {
    if m.contains_key(k) {
        status_ok()
    } else {
        status_not_found()
    }
}

/// Extending a record list by one entry inserts that entry's binding into
/// the denoted map.
proof fn lemma_kv_map_take_step(entries: Seq<(String, String)>, i: int)
    requires
        0 <= i < entries.len(),
    ensures
        kv_map(entries.take(i + 1)) == kv_map(entries.take(i)).insert(
            entries[i].0@,
            entries[i].1@,
        ),
{
    let prefix = entries.take(i + 1);
    assert(prefix.drop_last() =~= entries.take(i));
    assert(prefix.last() == entries[i]);
}

/// A read of a key the store holds resolves to that key's stored value
/// with an ok status. A submitted read pins exactly this outcome into its
/// result slot, and a poll that reports ready hands it out unchanged.
pub proof fn law_lookup_present(m: Map<Seq<char>, Seq<char>>, k: Seq<char>)
    requires
        m.contains_key(k),
    ensures
        lookup_value(m, k) == m[k],
        lookup_status(m, k) == status_ok(),
        lookup_status(m, k).code == StatusCode::kOk,
{
}

/// A read of a key the store does not hold resolves to the empty value
/// with a not-found status.
pub proof fn law_lookup_absent(m: Map<Seq<char>, Seq<char>>, k: Seq<char>)
    requires
        !m.contains_key(k),
    ensures
        lookup_value(m, k) == Seq::<char>::empty(),
        lookup_status(m, k) == status_not_found(),
        lookup_status(m, k).code == StatusCode::kNotFound,
{
}

/// The in-memory store: an open database handle reduced to the data the
/// bridge reads.
pub struct Db {
    entries: Vec<(String, String)>,
}

impl View for Db {
    type V = Map<Seq<char>, Seq<char>>;

    closed spec fn view(&self) -> Map<Seq<char>, Seq<char>> {
        kv_map(self.entries@)
    }
}

impl Db {
    /// An empty store.
    pub fn new() -> (r: Db)
        ensures
            r@ == Map::<Seq<char>, Seq<char>>::empty(),
    {
        Db { entries: Vec::new() }
    }

    /// Binds `key` to `value`, replacing any earlier binding.
    pub fn put(&mut self, key: String, value: String)
        ensures
            final(self)@ == old(self)@.insert(key@, value@),
    {
        let ghost old_entries = self.entries@;
        let ghost k = key@;
        let ghost v = value@;
        self.entries.push((key, value));
        proof {
            assert(self.entries@.drop_last() =~= old_entries);
            assert(self.entries@.last() == (self.entries@[old_entries.len() as int]));
            assert(self.entries@.last().0@ == k && self.entries@.last().1@ == v);
        }
    }

    /// Looks `key` up: the value of its latest put and an ok status when
    /// the key is present, the empty value and a not-found status when it
    /// is absent.
    pub fn lookup(&self, key: &String) -> (r: (String, RustStatus))
        ensures
            r.0@ == lookup_value(self@, key@),
            r.1 == lookup_status(self@, key@),
    {
        let n = self.entries.len();
        let mut found = false;
        let mut value = String::new();
        let mut i: usize = 0;
        while i < n
            invariant
                n == self.entries@.len(),
                0 <= i <= n,
                found == kv_map(self.entries@.take(i as int)).contains_key(key@),
                found ==> value@ == kv_map(self.entries@.take(i as int))[key@],
                !found ==> value@ == Seq::<char>::empty(),
            decreases n - i,
        {
            proof {
                lemma_kv_map_take_step(self.entries@, i as int);
            }
            if self.entries[i].0 == *key {
                found = true;
                value = self.entries[i].1.clone();
            }
            i = i + 1;
        }
        proof {
            assert(self.entries@.take(n as int) =~= self.entries@);
        }
        if found {
            (value, RustStatus::new())
        } else {
            (value, RustStatus::new_error(StatusCode::kNotFound))
        }
    }
}

} // verus!
