//! A sorted association vector with binary-search lookup.
//!
//! The interval dictionaries are small, populated once at startup and then
//! only read, so a sorted `Vec` of pairs with binary search is preferred
//! over a hash map. Keys supply their own total order through [`SortKey`]:
//! each key has a mathematical model, the order is stated on models, and an
//! executable three-way comparison is proved to agree with it.

use crate::order::KeyCmp;
use vstd::prelude::*;

verus! {

/// A key type usable in a [`SortedVec`].
///
/// `M` is the mathematical model of a key; two keys are "the same key"
/// exactly when their models are equal. `m_le` must be a total order on
/// models, and `key_cmp` must compute it.
pub trait SortKey: Sized {
    type M;

    /// The mathematical value this key stands for.
    spec fn model(&self) -> Self::M;

    /// Total order on key models.
    spec fn m_le(a: Self::M, b: Self::M) -> bool;

    proof fn lemma_le_total(a: Self::M, b: Self::M)
        ensures
            Self::m_le(a, b) || Self::m_le(b, a),
    ;

    proof fn lemma_le_antisym(a: Self::M, b: Self::M)
        requires
            Self::m_le(a, b),
            Self::m_le(b, a),
        ensures
            a == b,
    ;

    proof fn lemma_le_trans(a: Self::M, b: Self::M, c: Self::M)
        requires
            Self::m_le(a, b),
            Self::m_le(b, c),
        ensures
            Self::m_le(a, c),
    ;

    /// Three-way comparison agreeing with `m_le` on the models.
    fn key_cmp(&self, other: &Self) -> (c: KeyCmp)
        ensures
            match c {
                KeyCmp::Less => Self::m_le(self.model(), other.model()) && self.model()
                    != other.model(),
                KeyCmp::Equal => self.model() == other.model(),
                KeyCmp::Greater => Self::m_le(other.model(), self.model()) && self.model()
                    != other.model(),
            },
    ;
}

/// Strict order on key models.
pub open spec fn m_lt<K: SortKey>(a: K::M, b: K::M) -> bool {
    K::m_le(a, b) && a != b
}

/// The keys of `s` are strictly increasing.
pub open spec fn sorted_keys<K: SortKey, V>(s: Seq<(K, V)>) -> bool {
    forall|i: int, j: int|
        0 <= i < j < s.len() ==> m_lt::<K>(#[trigger] s[i].0.model(), #[trigger] s[j].0.model())
}

/// Some entry of `s` has key model `m`.
pub open spec fn contains_mkey<K: SortKey, V>(s: Seq<(K, V)>, m: K::M) -> bool {
    exists|i: int| 0 <= i < s.len() && #[trigger] s[i].0.model() == m
}

/// The association `s` read as a map from key models to value views.
pub open spec fn as_map_of<K: SortKey, V: View>(s: Seq<(K, V)>) -> Map<K::M, V::V>
    decreases s.len(),
{
    if s.len() == 0 {
        Map::empty()
    } else {
        as_map_of(s.drop_last()).insert(s.last().0.model(), s.last().1@)
    }
}

/// Position `pos` is where a key with model `m` belongs in `s`: everything
/// before it is strictly smaller and everything from it on strictly larger.
pub open spec fn insertion_point<K: SortKey, V>(s: Seq<(K, V)>, pos: int, m: K::M) -> bool {
    &&& 0 <= pos <= s.len()
    &&& forall|j: int| 0 <= j < pos ==> m_lt::<K>(#[trigger] s[j].0.model(), m)
    &&& forall|j: int| pos <= j < s.len() ==> m_lt::<K>(m, #[trigger] s[j].0.model())
}

/// Under strictly increasing keys, the map model contains exactly the
/// entries of the sequence.
pub proof fn lemma_as_map_entries<K: SortKey, V: View>(s: Seq<(K, V)>)
    requires
        forall|i: int, j: int|
            0 <= i < j < s.len() ==> #[trigger] s[i].0.model() != #[trigger] s[j].0.model(),
    ensures
        forall|i: int|
            0 <= i < s.len() ==> as_map_of(s).contains_pair(#[trigger] s[i].0.model(), s[i].1@),
        forall|m: K::M|
            #[trigger] as_map_of(s).contains_key(m) ==> contains_mkey(s, m),
    decreases s.len(),
{
    if s.len() > 0 {
        let t = s.drop_last();
        lemma_as_map_entries::<K, V>(t);
        assert forall|i: int|
            0 <= i < s.len() implies as_map_of(s).contains_pair(
            #[trigger] s[i].0.model(),
            s[i].1@,
        ) by {
            if i < s.len() - 1 {
                assert(t[i] == s[i]);
                assert(as_map_of(t).contains_pair(s[i].0.model(), s[i].1@));
                assert(s[i].0.model() != s.last().0.model());
            }
        }
        assert forall|m: K::M| #[trigger] as_map_of(s).contains_key(m) implies contains_mkey(
            s,
            m,
        ) by {
            if m == s.last().0.model() {
                assert(s[s.len() - 1].0.model() == m);
            } else {
                assert(as_map_of(t).contains_key(m));
                let i = choose|i: int| 0 <= i < t.len() && #[trigger] t[i].0.model() == m;
                assert(s[i].0.model() == m);
            }
        }
    }
}

/// Inserting a fresh key into the sequence inserts it into the map model.
pub proof fn lemma_as_map_insert<K: SortKey, V: View>(s: Seq<(K, V)>, pos: int, k: K, v: V)
    requires
        0 <= pos <= s.len(),
        !contains_mkey(s, k.model()),
    ensures
        as_map_of(s.insert(pos, (k, v))) == as_map_of(s).insert(k.model(), v@),
    decreases s.len(),
{
    let t = s.insert(pos, (k, v));
    if pos == s.len() {
        assert(t.drop_last() =~= s);
        assert(t.last() == (k, v));
    } else {
        assert(s.len() > 0);
        assert(t.last() == s.last());
        assert(t.drop_last() =~= s.drop_last().insert(pos, (k, v)));
        assert(!contains_mkey(s.drop_last(), k.model())) by {
            if contains_mkey(s.drop_last(), k.model()) {
                let i = choose|i: int|
                    0 <= i < s.drop_last().len() && #[trigger] s.drop_last()[i].0.model()
                        == k.model();
                assert(s[i].0.model() == k.model());
            }
        }
        lemma_as_map_insert::<K, V>(s.drop_last(), pos, k, v);
        assert(s[s.len() - 1].0.model() != k.model());
        assert(as_map_of(t) =~= as_map_of(s).insert(k.model(), v@)) by {
            assert(as_map_of(t) == as_map_of(s.drop_last()).insert(k.model(), v@).insert(
                s.last().0.model(),
                s.last().1@,
            ));
        }
    }
}

/// Inserting at the insertion point keeps the keys strictly increasing.
pub proof fn lemma_sorted_insert<K: SortKey, V>(s: Seq<(K, V)>, pos: int, k: K, v: V)
    requires
        sorted_keys(s),
        insertion_point(s, pos, k.model()),
    ensures
        sorted_keys(s.insert(pos, (k, v))),
{
    let t = s.insert(pos, (k, v));
    assert forall|i: int, j: int|
        0 <= i < j < t.len() implies m_lt::<K>(
        #[trigger] t[i].0.model(),
        #[trigger] t[j].0.model(),
    ) by {
        if i < pos {
            assert(t[i] == s[i]);
        } else if i == pos {
            assert(t[i] == (k, v));
        } else {
            assert(t[i] == s[i - 1]);
        }
        if j < pos {
            assert(t[j] == s[j]);
        } else if j == pos {
            assert(t[j] == (k, v));
        } else {
            assert(t[j] == s[j - 1]);
        }
        if i < pos && j == pos {
        } else if i == pos && j > pos {
        } else if i < pos && j > pos {
            K::lemma_le_trans(s[i].0.model(), k.model(), s[j - 1].0.model());
            if s[i].0.model() == s[j - 1].0.model() {
                K::lemma_le_antisym(s[i].0.model(), k.model());
            }
        }
    }
}

/// A vector of key/value pairs kept sorted by key, with binary-search
/// lookup. Lookups are `O(log n)`; inserts shift the tail, which is fine
/// for a dictionary that is built once and then only read.
#[derive(Debug)]
pub struct SortedVec<K, V> {
    inner: Vec<(K, V)>,
}

/// Where a key was found, or where it would be inserted.
pub enum Entry<K> {
    Occupied(OccupiedEntry),
    Vacant(VacantEntry<K>),
}

/// Position of an entry whose key model matched a lookup.
pub struct OccupiedEntry {
    pos: usize,
}

/// Position where a key, carried along, can be inserted.
pub struct VacantEntry<K> {
    pos: usize,
    key: K,
}

impl OccupiedEntry {
    pub closed spec fn pos(&self) -> int {
        self.pos as int
    }

    /// Both halves of the matched entry.
    pub fn key_value<'a, K: SortKey, V: View>(&self, sv: &'a SortedVec<K, V>) -> (r: (&'a K, &'a V))
        requires
            0 <= self.pos() < sv.entries().len(),
        ensures
            *r.0 == sv.entries()[self.pos()].0,
            *r.1 == sv.entries()[self.pos()].1,
    {
        let pair = &sv.inner[self.pos];
        (&pair.0, &pair.1)
    }

    /// The key of the matched entry.
    pub fn key<'a, K: SortKey, V: View>(&self, sv: &'a SortedVec<K, V>) -> (r: &'a K)
        requires
            0 <= self.pos() < sv.entries().len(),
        ensures
            *r == sv.entries()[self.pos()].0,
    {
        self.key_value(sv).0
    }

    /// The value of the matched entry.
    pub fn value<'a, K: SortKey, V: View>(&self, sv: &'a SortedVec<K, V>) -> (r: &'a V)
        requires
            0 <= self.pos() < sv.entries().len(),
        ensures
            *r == sv.entries()[self.pos()].1,
    {
        self.key_value(sv).1
    }

    /// Mutable access to the value of the matched entry; the keys, and so
    /// the sorting, are untouched.
    pub fn into_mut_value<'a, K: SortKey, V: View>(self, sv: &'a mut SortedVec<K, V>) -> (r: &'a mut V)
        requires
            0 <= self.pos() < old(sv).entries().len(),
        ensures
            *r == old(sv).entries()[self.pos()].1,
            final(sv).entries() == old(sv).entries().update(
                self.pos(),
                (old(sv).entries()[self.pos()].0, *final(r)),
            ),
    {
        let pair = &mut sv.inner[self.pos];
        &mut pair.1
    }
}

impl<K: SortKey> VacantEntry<K> {
    pub closed spec fn pos(&self) -> int {
        self.pos as int
    }

    pub closed spec fn key(&self) -> K {
        self.key
    }

    /// Inserts the carried key with `value` at the vacant position.
    pub fn insert<V: View>(self, sv: &mut SortedVec<K, V>, value: V) -> (o: OccupiedEntry)
        requires
            old(sv).wf(),
            insertion_point(old(sv).entries(), self.pos(), self.key().model()),
            !contains_mkey(old(sv).entries(), self.key().model()),
        ensures
            final(sv).entries() == old(sv).entries().insert(self.pos(), (self.key(), value)),
            final(sv).wf(),
            final(sv).as_map() == old(sv).as_map().insert(self.key().model(), value@),
            o.pos() == self.pos(),
    {
        let ghost old_entries = sv.entries();
        let VacantEntry { pos, key } = self;
        let ghost gkey = key;
        sv.inner.insert(pos, (key, value));
        proof {
            lemma_sorted_insert::<K, V>(old_entries, pos as int, gkey, value);
            lemma_as_map_insert::<K, V>(old_entries, pos as int, gkey, value);
        }
        OccupiedEntry { pos }
    }
}

impl<K: SortKey, V: View> SortedVec<K, V> {
    /// The underlying pair sequence.
    pub closed spec fn entries(&self) -> Seq<(K, V)> {
        self.inner@
    }

    /// Well-formed: keys strictly increasing.
    pub open spec fn wf(&self) -> bool {
        sorted_keys(self.entries())
    }

    /// The association read as a map from key models to value views.
    pub open spec fn as_map(&self) -> Map<K::M, V::V> {
        as_map_of(self.entries())
    }

    pub fn new() -> (r: SortedVec<K, V>)
        ensures
            r.entries() == Seq::<(K, V)>::empty(),
            r.wf(),
    {
        SortedVec { inner: Vec::new() }
    }

    pub fn len(&self) -> (r: usize)
        ensures
            r == self.entries().len(),
    {
        self.inner.len()
    }

    /// The key stored at position `i`.
    pub fn key_at(&self, i: usize) -> (r: &K)
        requires
            i < self.entries().len(),
        ensures
            *r == self.entries()[i as int].0,
    {
        &self.inner[i].0
    }

    /// Binary search for a key with the same model: its position, or the
    /// position where it would be inserted.
    fn search(&self, key: &K) -> (r: Result<usize, usize>)
        requires
            self.wf(),
        ensures
            match r {
                Ok(pos) => 0 <= pos < self.entries().len() && self.entries()[pos as int].0.model()
                    == key.model(),
                Err(pos) => insertion_point(self.entries(), pos as int, key.model())
                    && !contains_mkey(self.entries(), key.model()),
            },
    {
        let ghost s = self.entries();
        let ghost m = key.model();
        let mut lo: usize = 0;
        let mut hi: usize = self.inner.len();
        while lo < hi
            invariant
                self.wf(),
                s == self.entries(),
                m == key.model(),
                0 <= lo <= hi <= s.len(),
                forall|j: int| 0 <= j < lo ==> m_lt::<K>(#[trigger] s[j].0.model(), m),
                forall|j: int| hi <= j < s.len() ==> m_lt::<K>(m, #[trigger] s[j].0.model()),
            decreases hi - lo,
        {
            let mid = lo + (hi - lo) / 2;
            let pair = &self.inner[mid];
            match key.key_cmp(&pair.0) {
                KeyCmp::Equal => {
                    return Ok(mid);
                },
                KeyCmp::Greater => {
                    proof {
                        assert forall|j: int| 0 <= j < mid + 1 implies m_lt::<K>(
                            #[trigger] s[j].0.model(),
                            m,
                        ) by {
                            if j < mid {
                                K::lemma_le_trans(s[j].0.model(), s[mid as int].0.model(), m);
                                if s[j].0.model() == m {
                                    K::lemma_le_antisym(s[mid as int].0.model(), m);
                                }
                            }
                        }
                    }
                    lo = mid + 1;
                },
                KeyCmp::Less => {
                    proof {
                        assert forall|j: int| mid <= j < s.len() implies m_lt::<K>(
                            m,
                            #[trigger] s[j].0.model(),
                        ) by {
                            if j > mid {
                                K::lemma_le_trans(m, s[mid as int].0.model(), s[j].0.model());
                                if s[j].0.model() == m {
                                    K::lemma_le_antisym(m, s[mid as int].0.model());
                                }
                            }
                        }
                    }
                    hi = mid;
                },
            }
        }
        proof {
            if contains_mkey(s, m) {
                let i = choose|i: int| 0 <= i < s.len() && #[trigger] s[i].0.model() == m;
            }
        }
        Err(lo)
    }

    /// Looks a key up; `Some` holds the stored value exactly when the map
    /// model has the key.
    pub fn get(&self, key: &K) -> (r: Option<&V>)
        requires
            self.wf(),
        ensures
            match r {
                Some(v) => self.as_map().contains_pair(key.model(), v@),
                None => !self.as_map().contains_key(key.model()),
            },
    {
        proof {
            lemma_as_map_entries::<K, V>(self.entries());
        }
        match self.search(key) {
            Ok(pos) => Some(&self.inner[pos].1),
            Err(_) => None,
        }
    }

    /// Mutable access to the value under `key`, inserting the type's
    /// default value first when the key is absent. The keys, and so the
    /// sorting, stay intact either way.
    pub fn get_mut_or_insert_default(&mut self, key: K) -> (r: &mut V) where V: Default
        requires
            old(self).wf(),
        ensures
            final(self).wf(),
            contains_mkey(old(self).entries(), key.model()) ==> (exists|i: int|
                0 <= i < old(self).entries().len() && (#[trigger] old(self).entries()[i].0.model())
                    == key.model() && *r == old(self).entries()[i].1 && final(self).entries()
                    == old(self).entries().update(
                    i,
                    (old(self).entries()[i].0, *final(r)),
                )),
            !contains_mkey(old(self).entries(), key.model()) ==> (exists|i: int|
                insertion_point(old(self).entries(), i, key.model()) && final(self).entries()
                    == old(self).entries().insert(i, (key, *final(r)))),
    {
        let ghost s0 = self.entries();
        match self.search(&key) {
            Ok(pos) => {
                let pair = &mut self.inner[pos];
                proof {
                    assert forall|i: int, j: int|
                        0 <= i < j < s0.len() implies m_lt::<K>(
                        #[trigger] s0.update(pos as int, (s0[pos as int].0, final(pair).1))[i].0.model(),
                        #[trigger] s0.update(pos as int, (s0[pos as int].0, final(pair).1))[j].0.model(),
                    ) by {
                        assert(s0.update(pos as int, (s0[pos as int].0, final(pair).1))[i].0
                            == s0[i].0);
                        assert(s0.update(pos as int, (s0[pos as int].0, final(pair).1))[j].0
                            == s0[j].0);
                    }
                }
                &mut pair.1
            },
            Err(pos) => {
                self.inner.insert(pos, (key, V::default()));
                let ghost s1 = self.entries();
                let pair = &mut self.inner[pos];
                proof {
                    lemma_sorted_insert::<K, V>(s0, pos as int, s1[pos as int].0, s1[pos as int].1);
                    assert(s0.insert(pos as int, (s1[pos as int].0, s1[pos as int].1)) =~= s1);
                    let t = s1.update(pos as int, (s1[pos as int].0, final(pair).1));
                    assert(t =~= s0.insert(pos as int, (s1[pos as int].0, final(pair).1)));
                    assert forall|i: int, j: int|
                        0 <= i < j < t.len() implies m_lt::<K>(
                        #[trigger] t[i].0.model(),
                        #[trigger] t[j].0.model(),
                    ) by {
                        assert(t[i].0 == s1[i].0);
                        assert(t[j].0 == s1[j].0);
                    }
                }
                &mut pair.1
            },
        }
    }

    /// Finds where a key lives, or where it would go; the key is carried
    /// into the vacant case so that an insert can use it.
    pub fn entry(&self, key: K) -> (e: Entry<K>)
        requires
            self.wf(),
        ensures
            match e {
                Entry::Occupied(o) => 0 <= o.pos() < self.entries().len()
                    && self.entries()[o.pos()].0.model() == key.model(),
                Entry::Vacant(va) => va.key() == key && insertion_point(
                    self.entries(),
                    va.pos(),
                    key.model(),
                ) && !contains_mkey(self.entries(), key.model()),
            },
    {
        match self.search(&key) {
            Ok(pos) => Entry::Occupied(OccupiedEntry { pos }),
            Err(pos) => Entry::Vacant(VacantEntry { pos, key }),
        }
    }
}

/// Strings sort by the byte-wise lexicographic order of their contents.
impl SortKey for String {
    type M = Seq<char>;

    open spec fn model(&self) -> Seq<char> {
        self@
    }

    open spec fn m_le(a: Seq<char>, b: Seq<char>) -> bool {
        crate::order::str_le(a, b)
    }

    proof fn lemma_le_total(a: Seq<char>, b: Seq<char>) {
        crate::order::lemma_str_le_total(a, b);
    }

    proof fn lemma_le_antisym(a: Seq<char>, b: Seq<char>) {
        crate::order::lemma_str_le_antisym(a, b);
    }

    proof fn lemma_le_trans(a: Seq<char>, b: Seq<char>, c: Seq<char>) {
        crate::order::lemma_str_le_trans(a, b, c);
    }

    fn key_cmp(&self, other: &Self) -> (c: KeyCmp) {
        crate::order::str_cmp(self.as_str(), other.as_str())
    }
}

impl<K: SortKey, V: View> Default for SortedVec<K, V> {
    fn default() -> (r: SortedVec<K, V>)
        ensures
            r.entries() == Seq::<(K, V)>::empty(),
            r.wf(),
    {
        SortedVec::new()
    }
}

} // verus!
