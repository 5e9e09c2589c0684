//! Statistics of many files, kept in the order of their names, one entry
//! per name: the first entry registered under a name stays.

use crate::statistics::Statistics;
use vstd::prelude::*;
use vstd::utf8::{encode_utf8, encode_utf8_decode_utf8};

verus! {

/// From position `i` on, the bytes `a` come before the bytes `b` in the
/// order of a dictionary: at the first position where they differ `a` has
/// the smaller byte, or `a` ends there and `b` goes on.
pub open spec fn precedes_from(a: Seq<u8>, b: Seq<u8>, i: int) -> bool
    decreases a.len() - i,
{
    if i < 0 || i >= b.len() {
        false
    } else if i >= a.len() {
        true
    } else if a[i] != b[i] {
        a[i] < b[i]
    } else {
        precedes_from(a, b, i + 1)
    }
}

/// The name `a` comes before the name `b`: the order of their UTF-8 bytes,
/// which is the order in which strings compare.
pub open spec fn name_precedes(a: Seq<char>, b: Seq<char>) -> bool {
    precedes_from(encode_utf8(a), encode_utf8(b), 0)
}

/// No sequence of bytes comes before itself.
pub proof fn lemma_precedes_irreflexive(a: Seq<u8>, i: int)
    ensures
        !precedes_from(a, a, i),
    decreases a.len() - i,
{
    if 0 <= i < a.len() {
        lemma_precedes_irreflexive(a, i + 1);
    }
}

/// What comes before something that comes before a third comes before the
/// third.
pub proof fn lemma_precedes_transitive(a: Seq<u8>, b: Seq<u8>, c: Seq<u8>, i: int)
    requires
        precedes_from(a, b, i),
        precedes_from(b, c, i),
    ensures
        precedes_from(a, c, i),
    decreases a.len() - i,
{
    if i < a.len() && a[i] == b[i] && b[i] == c[i] {
        lemma_precedes_transitive(a, b, c, i + 1);
    }
}

/// Of two sequences of bytes that agree before `i`, one comes before the
/// other, or they are the same.
pub proof fn lemma_precedes_total(a: Seq<u8>, b: Seq<u8>, i: int)
    requires
        0 <= i <= a.len(),
        i <= b.len(),
        forall|n: int| 0 <= n < i ==> a[n] == b[n],
        !precedes_from(a, b, i),
        !precedes_from(b, a, i),
    ensures
        a == b,
    decreases a.len() - i,
{
    if i < a.len() && i < b.len() {
        lemma_precedes_total(a, b, i + 1);
    } else {
        assert(a =~= b);
    }
}

/// Of two different names one comes before the other.
pub proof fn lemma_names_total(a: Seq<char>, b: Seq<char>)
    requires
        !name_precedes(a, b),
        !name_precedes(b, a),
    ensures
        a == b,
{
    lemma_precedes_total(encode_utf8(a), encode_utf8(b), 0);
    encode_utf8_decode_utf8(a);
    encode_utf8_decode_utf8(b);
}

/// The entries of an aggregate: names with their statistics.
pub type Entries = Seq<(Seq<char>, Statistics)>;

/// The names rise strictly from each entry to the next.
pub open spec fn sorted(s: Entries) -> bool {
    forall|i: int, j: int|
        #![trigger s[i], s[j]]
        0 <= i < j < s.len() ==> name_precedes(s[i].0, s[j].0)
}

/// Some entry has the name `k`.
pub open spec fn listed(s: Entries, k: Seq<char>) -> bool {
    exists|i: int| #![trigger s[i]] 0 <= i < s.len() && s[i].0 == k
}

/// The position of an entry that has the name `k`, where there is one.
pub open spec fn index_of(s: Entries, k: Seq<char>) -> int {
    choose|i: int| #![trigger s[i]] 0 <= i < s.len() && s[i].0 == k
}

/// The entries as a map from names to statistics.
pub open spec fn to_map(s: Entries) -> Map<Seq<char>, Statistics> {
    Map::new(|k: Seq<char>| listed(s, k), |k: Seq<char>| s[index_of(s, k)].1)
}

/// The map with the entry added, unless the name is taken: the first
/// registration under a name stays.
pub open spec fn with_entry(
    m: Map<Seq<char>, Statistics>,
    name: Seq<char>,
    stat: Statistics,
) -> Map<Seq<char>, Statistics> {
    if m.contains_key(name) {
        m
    } else {
        m.insert(name, stat)
    }
}

/// In sorted entries no name stands twice.
pub proof fn lemma_names_differ(s: Entries, i: int, j: int)
    requires
        sorted(s),
        0 <= i < s.len(),
        0 <= j < s.len(),
        s[i].0 == s[j].0,
    ensures
        i == j,
{
    lemma_precedes_irreflexive(encode_utf8(s[i].0), 0);
    if i < j {
        assert(name_precedes(s[i].0, s[j].0));
    } else if j < i {
        assert(name_precedes(s[j].0, s[i].0));
    }
}

/// The map of sorted entries holds each entry under its name.
pub proof fn lemma_lookup(s: Entries, i: int)
    requires
        sorted(s),
        0 <= i < s.len(),
    ensures
        listed(s, s[i].0),
        to_map(s).contains_key(s[i].0),
        to_map(s)[s[i].0] == s[i].1,
{
    let k = s[i].0;
    let j = index_of(s, k);
    lemma_names_differ(s, i, j);
}

/// Putting an entry where its name belongs keeps the entries sorted and
/// adds the entry to their map.
pub proof fn lemma_insert(s: Entries, p: int, name: Seq<char>, stat: Statistics)
    requires
        sorted(s),
        0 <= p <= s.len(),
        forall|i: int| #![trigger s[i]] 0 <= i < p ==> name_precedes(s[i].0, name),
        forall|i: int| #![trigger s[i]] p <= i < s.len() ==> name_precedes(name, s[i].0),
    ensures
        !listed(s, name),
        sorted(s.insert(p, (name, stat))),
        to_map(s.insert(p, (name, stat))) == to_map(s).insert(name, stat),
{
    let t = s.insert(p, (name, stat));
    lemma_precedes_irreflexive(encode_utf8(name), 0);
    assert forall|i: int| #![trigger s[i]] 0 <= i < s.len() implies s[i].0 != name by {
        if i < p {
            assert(name_precedes(s[i].0, name));
        } else {
            assert(name_precedes(name, s[i].0));
        }
    }
    assert forall|i: int, j: int| #![trigger t[i], t[j]] 0 <= i < j < t.len() implies name_precedes(
        t[i].0,
        t[j].0,
    ) by {
        let a = if i < p {
            i
        } else {
            i - 1
        };
        let b = if j < p {
            j
        } else {
            j - 1
        };
        if i == p {
            assert(t[j] == s[b]);
        } else if j == p {
            assert(t[i] == s[a]);
        } else {
            assert(t[i] == s[a]);
            assert(t[j] == s[b]);
        }
    }
    assert(t[p] == (name, stat));
    lemma_lookup(t, p);
    assert forall|k: Seq<char>| #[trigger] to_map(t).contains_key(k) == to_map(s).insert(
        name,
        stat,
    ).contains_key(k) by {
        if listed(t, k) {
            let i = index_of(t, k);
            if i < p {
                assert(t[i] == s[i]);
            } else if i > p {
                assert(t[i] == s[i - 1]);
            }
        }
        if listed(s, k) {
            let i = index_of(s, k);
            if i < p {
                assert(t[i] == s[i]);
            } else {
                assert(t[i + 1] == s[i]);
            }
        }
    }
    assert forall|k: Seq<char>| #[trigger] to_map(t).contains_key(k) implies to_map(t)[k]
        == to_map(s).insert(name, stat)[k] by {
        if k != name {
            let i = index_of(s, k);
            lemma_lookup(s, i);
            if i < p {
                assert(t[i] == s[i]);
                lemma_lookup(t, i);
            } else {
                assert(t[i + 1] == s[i]);
                lemma_lookup(t, i + 1);
            }
        }
    }
    assert(to_map(t) =~= to_map(s).insert(name, stat));
}

/// Registering a second time under a name changes nothing: the first
/// registration stays, whatever the second one holds.
pub proof fn lemma_first_wins(
    m: Map<Seq<char>, Statistics>,
    name: Seq<char>,
    first: Statistics,
    second: Statistics,
)
    ensures
        with_entry(with_entry(m, name, first), name, second) == with_entry(m, name, first),
        with_entry(m, name, first).contains_key(name),
        !m.contains_key(name) ==> with_entry(with_entry(m, name, first), name, second)[name]
            == first,
{
}

/// Tells whether the bytes `a` come before the bytes `b`.
pub fn bytes_precede(a: &[u8], b: &[u8]) -> (r: bool)
    ensures
        r == precedes_from(a@, b@, 0),
{
    let mut i: usize = 0;
    while i < a.len() && i < b.len()
        invariant
            i <= a@.len(),
            i <= b@.len(),
            precedes_from(a@, b@, 0) == precedes_from(a@, b@, i as int),
        decreases a@.len() - i,
    {
        if a[i] != b[i] {
            return a[i] < b[i];
        }
        i = i + 1;
    }
    i < b.len()
}

/// Tells whether the name `a` comes before the name `b`.
pub fn name_before(a: &str, b: &str) -> (r: bool)
    ensures
        r == name_precedes(a@, b@),
{
    bytes_precede(a.as_bytes(), b.as_bytes())
}

/// Statistics of many files: entries of a name and the statistics of the
/// file of that name, in the order of the names, no name twice.
pub struct Aggregate {
    entries: Vec<(String, Statistics)>,
}

/// The entries as they are kept, each name as its characters.
pub closed spec fn project(v: Seq<(String, Statistics)>) -> Entries {
    Seq::new(v.len(), |i: int| (v[i].0@, v[i].1))
}

impl View for Aggregate {
    type V = Seq<(Seq<char>, Statistics)>;

    /// The entries in order, each name as its characters.
    closed spec fn view(&self) -> Seq<(Seq<char>, Statistics)> {
        project(self.entries@)
    }
}

impl Aggregate {
    /// The names rise strictly from each entry to the next.
    #[verifier::type_invariant]
    spec fn in_order(&self) -> bool {
        sorted(project(self.entries@))
    }

    /// The entries as a map from names to statistics.
    pub open spec fn map(&self) -> Map<Seq<char>, Statistics> {
        to_map(self@)
    }

    /// An aggregate without entries.
    pub fn new() -> (r: Self)
        ensures
            r@ == Seq::<(Seq<char>, Statistics)>::empty(),
            r.map() == Map::<Seq<char>, Statistics>::empty(),
    {
        let entries: Vec<(String, Statistics)> = Vec::new();
        assert(project(entries@) =~= Seq::<(Seq<char>, Statistics)>::empty());
        let r = Aggregate { entries };
        assert(r.map() =~= Map::<Seq<char>, Statistics>::empty());
        r
    }

    /// The number of entries.
    pub fn len(&self) -> (r: usize)
        ensures
            r == self@.len(),
    {
        self.entries.len()
    }

    /// Tells whether there is no entry.
    pub fn is_empty(&self) -> (r: bool)
        ensures
            r == (self@.len() == 0),
    {
        self.entries.len() == 0
    }

    /// The name of the entry at position `i`. The names rise strictly from
    /// each entry to the next.
    pub fn name(&self, i: usize) -> (r: &str)
        requires
            i < self@.len(),
        ensures
            r@ == self@[i as int].0,
            sorted(self@),
    {
        proof {
            use_type_invariant(self);
        }
        self.entries[i].0.as_str()
    }

    /// The statistics of the entry at position `i`.
    pub fn statistics(&self, i: usize) -> (r: Statistics)
        requires
            i < self@.len(),
        ensures
            r == self@[i as int].1,
    {
        self.entries[i].1
    }

    /// The position of the first entry whose name does not come before
    /// `file`: where an entry of that name stands or would stand.
    pub fn position(&self, file: &str) -> (p: usize)
        ensures
            sorted(self@),
            p <= self@.len(),
            forall|i: int| #![trigger self@[i]] 0 <= i < p ==> name_precedes(self@[i].0, file@),
            forall|i: int|
                #![trigger self@[i]]
                p <= i < self@.len() ==> !name_precedes(self@[i].0, file@),
            listed(self@, file@) <==> p < self@.len() && self@[p as int].0 == file@,
    {
        proof {
            use_type_invariant(self);
        }
        let mut p: usize = 0;
        while p < self.entries.len() && name_before(self.entries[p].0.as_str(), file)
            invariant
                p <= self@.len(),
                forall|i: int|
                    #![trigger self@[i]]
                    0 <= i < p ==> name_precedes(self@[i].0, file@),
            decreases self@.len() - p,
        {
            p = p + 1;
        }
        proof {
            lemma_position(self@, p as int, file@);
        }
        p
    }

    /// The statistics registered under the name `file`, if there are any.
    pub fn get(&self, file: &str) -> (r: Option<Statistics>)
        ensures
            r == if self.map().contains_key(file@) {
                Some(self.map()[file@])
            } else {
                None
            },
    {
        let p = self.position(file);
        if p < self.entries.len() && !name_before(file, self.entries[p].0.as_str()) {
            proof {
                lemma_names_total(self@[p as int].0, file@);
                lemma_lookup(self@, p as int);
            }
            Some(self.entries[p].1)
        } else {
            None
        }
    }

    /// Registers the statistics of a file under its name. Where the name
    /// is taken, nothing changes: the first registration stays.
    pub fn add(&mut self, file: String, stat: Statistics)
        ensures
            sorted(final(self)@),
            final(self).map() == with_entry(old(self).map(), file@, stat),
            old(self).map().contains_key(file@) ==> final(self)@ == old(self)@,
            !old(self).map().contains_key(file@) ==> final(self)@.len() == old(self)@.len() + 1,
    {
        let p = self.position(file.as_str());
        if p < self.entries.len() && !name_before(file.as_str(), self.entries[p].0.as_str()) {
            proof {
                lemma_names_total(self@[p as int].0, file@);
                lemma_lookup(self@, p as int);
            }
            return ;
        }
        proof {
            lemma_absent(self@, p as int, file@);
            lemma_insert(self@, p as int, file@, stat);
            assert(project(self.entries@.insert(p as int, (file, stat))) =~= self@.insert(
                p as int,
                (file@, stat),
            ));
        }
        let mut entries: Vec<(String, Statistics)> = Vec::new();
        core::mem::swap(&mut self.entries, &mut entries);
        entries.insert(p, (file, stat));
        core::mem::swap(&mut self.entries, &mut entries);
    }

    /// Takes in every entry of another aggregate whose name is not taken
    /// here: the union of the two, in which an entry of this aggregate
    /// stays where both have one of the same name.
    pub fn extend(&mut self, other: &Aggregate)
        ensures
            sorted(final(self)@),
            final(self).map() == other.map().union_prefer_right(old(self).map()),
    {
        proof {
            use_type_invariant(&*self);
            use_type_invariant(other);
        }
        let ghost start = self.map();
        let mut i: usize = 0;
        assert(to_map(other@.take(0)).union_prefer_right(start) =~= start);
        while i < other.entries.len()
            invariant
                i <= other@.len(),
                sorted(other@),
                sorted(self@),
                self.map() == to_map(other@.take(i as int)).union_prefer_right(start),
            decreases other@.len() - i,
        {
            let name = other.entries[i].0.clone();
            let stat = other.entries[i].1;
            proof {
                let done = other@.take(i as int);
                let more = other@.take(i + 1);
                assert(more =~= done.insert(i as int, (name@, stat)));
                assert(other@[i as int] == (name@, stat));
                assert forall|a: int, b: int|
                    #![trigger done[a], done[b]]
                    0 <= a < b < done.len() implies name_precedes(done[a].0, done[b].0) by {
                    assert(done[a] == other@[a] && done[b] == other@[b]);
                }
                assert forall|n: int| #![trigger done[n]] 0 <= n < i implies name_precedes(
                    done[n].0,
                    name@,
                ) by {
                    assert(done[n] == other@[n]);
                }
                lemma_insert(done, i as int, name@, stat);
                assert(with_entry(self.map(), name@, stat) =~= to_map(more).union_prefer_right(
                    start,
                ));
            }
            self.add(name, stat);
            i = i + 1;
        }
        assert(other@.take(i as int) =~= other@);
    }
}

/// Where every entry before `p` comes before the name and no entry from
/// `p` on does, the name is listed only if it stands at `p`.
pub proof fn lemma_position(s: Entries, p: int, name: Seq<char>)
    requires
        sorted(s),
        0 <= p <= s.len(),
        forall|i: int| #![trigger s[i]] 0 <= i < p ==> name_precedes(s[i].0, name),
        p < s.len() ==> !name_precedes(s[p].0, name),
    ensures
        forall|i: int| #![trigger s[i]] p <= i < s.len() ==> !name_precedes(s[i].0, name),
        listed(s, name) <==> p < s.len() && s[p].0 == name,
{
    lemma_precedes_irreflexive(encode_utf8(name), 0);
    assert forall|i: int| #![trigger s[i]] p <= i < s.len() implies !name_precedes(
        s[i].0,
        name,
    ) by {
        if i > p && name_precedes(s[i].0, name) {
            assert(name_precedes(s[p].0, s[i].0));
            lemma_precedes_transitive(encode_utf8(s[p].0), encode_utf8(s[i].0), encode_utf8(name), 0);
        }
    }
    if listed(s, name) {
        let i = index_of(s, name);
        if i < p {
            assert(name_precedes(s[i].0, name));
        } else if i > p {
            assert(name_precedes(s[p].0, s[i].0));
        }
    }
}

/// Where every entry before `p` comes before the name and the entry at
/// `p`, if there is one, comes after it, no entry has the name, and the
/// name belongs at `p`.
pub proof fn lemma_absent(s: Entries, p: int, name: Seq<char>)
    requires
        sorted(s),
        0 <= p <= s.len(),
        forall|i: int| #![trigger s[i]] 0 <= i < p ==> name_precedes(s[i].0, name),
        p < s.len() ==> name_precedes(name, s[p].0),
    ensures
        forall|i: int| #![trigger s[i]] p <= i < s.len() ==> name_precedes(name, s[i].0),
        !listed(s, name),
        !to_map(s).contains_key(name),
{
    assert forall|i: int| #![trigger s[i]] p <= i < s.len() implies name_precedes(name, s[i].0) by {
        if i > p {
            assert(name_precedes(s[p].0, s[i].0));
            lemma_precedes_transitive(encode_utf8(name), encode_utf8(s[p].0), encode_utf8(s[i].0), 0);
        }
    }
    lemma_insert(s, p, name, Statistics::zero());
}

impl Default for Aggregate {
    fn default() -> (r: Self)
        ensures
            r@ == Seq::<(Seq<char>, Statistics)>::empty(),
    {
        Aggregate::new()
    }
}

} // verus!
