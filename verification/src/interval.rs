//! Canonical time intervals and the two-way interval/alias dictionary.
//!
//! An [`Interval`] is a `(kind, value)` pair such as "1 minute" or "4
//! hours". Exchanges and databases each spell intervals their own way
//! ("MINUTE_1", "1m", "candles_minute_1"); an [`IntervalsDict`] translates
//! between the canonical value and one such spelling, in both directions,
//! and rejects any registration that would make the translation ambiguous.

use crate::order::KeyCmp;
use crate::sorted_vec::contains_mkey;
use crate::sorted_vec::lemma_as_map_entries;
use crate::sorted_vec::Entry;
use crate::sorted_vec::SortKey;
use crate::sorted_vec::SortedVec;
use crate::utils::ValueLabel;
use vstd::prelude::*;

verus! {

broadcast use vstd::string::group_string_axioms;

/// The unit a time interval is counted in.
#[derive(Debug, PartialEq, Eq, PartialOrd, Ord, Clone, Copy, Structural)]
pub enum IntervalKind {
    Second,
    Minute,
    Hour,
    Day,
    Week,
    Month,
    Year,
}

/// A canonical time interval: `value` many units of `kind`.
#[derive(Debug, PartialEq, Eq, PartialOrd, Ord, Clone, Copy, Structural)]
pub struct Interval {
    pub kind: IntervalKind,
    pub value: u8,
}

/// Kinds ordered from shortest to longest unit.
pub open spec fn kind_rank(k: IntervalKind) -> int {
    match k {
        IntervalKind::Second => 0,
        IntervalKind::Minute => 1,
        IntervalKind::Hour => 2,
        IntervalKind::Day => 3,
        IntervalKind::Week => 4,
        IntervalKind::Month => 5,
        IntervalKind::Year => 6,
    }
}

/// Intervals ordered by kind first, then by value.
pub open spec fn interval_le(a: Interval, b: Interval) -> bool {
    kind_rank(a.kind) < kind_rank(b.kind) || (kind_rank(a.kind) == kind_rank(b.kind) && a.value
        <= b.value)
}

/// Short constructor for interval values in specifications.
pub open spec fn iv(kind: IntervalKind, value: u8) -> Interval {
    Interval { kind, value }
}

impl View for Interval {
    type V = Interval;

    open spec fn view(&self) -> Interval {
        *self
    }
}

fn kind_rank_exec(k: IntervalKind) -> (r: u8)
    ensures
        r == kind_rank(k),
{
    match k {
        IntervalKind::Second => 0,
        IntervalKind::Minute => 1,
        IntervalKind::Hour => 2,
        IntervalKind::Day => 3,
        IntervalKind::Week => 4,
        IntervalKind::Month => 5,
        IntervalKind::Year => 6,
    }
}

/// Intervals are their own key model, ordered by [`interval_le`].
impl SortKey for Interval {
    type M = Interval;

    open spec fn model(&self) -> Interval {
        *self
    }

    open spec fn m_le(a: Interval, b: Interval) -> bool {
        interval_le(a, b)
    }

    proof fn lemma_le_total(a: Interval, b: Interval) {
    }

    proof fn lemma_le_antisym(a: Interval, b: Interval) {
    }

    proof fn lemma_le_trans(a: Interval, b: Interval, c: Interval) {
    }

    fn key_cmp(&self, other: &Self) -> (c: KeyCmp) {
        let ra = kind_rank_exec(self.kind);
        let rb = kind_rank_exec(other.kind);
        if ra < rb {
            KeyCmp::Less
        } else if ra > rb {
            KeyCmp::Greater
        } else if self.value < other.value {
            KeyCmp::Less
        } else if self.value > other.value {
            KeyCmp::Greater
        } else {
            KeyCmp::Equal
        }
    }
}

/// Why a registration was rejected: one side of the pair already has a
/// partner. The error reports the stored partner next to the new one.
#[derive(Debug, Clone)]
pub enum DictError {
    IntervalTaken { interval: Interval, old_alias: String, new_alias: String },
    AliasTaken { alias: String, old_interval: Interval, new_interval: Interval },
}

/// Label for the dictionary of exchange interval spellings.
pub struct ExchangeIntervals;

impl ValueLabel for ExchangeIntervals {
    type Value = IntervalsDict;
}

/// Label for the dictionary of database interval spellings.
pub struct DatabaseIntervals;

impl ValueLabel for DatabaseIntervals {
    type Value = IntervalsDict;
}

/// Two-way dictionary between intervals and their string aliases.
///
/// Both directions are sorted association vectors with binary-search
/// lookup: the dictionary is built once at startup and then only read, so
/// this beats a hash map in simplicity. The well-formedness invariant says
/// the two directions are inverses of each other, which is what makes the
/// round trip `to_alias`/`to_interval` exact.
#[derive(Debug)]
pub struct IntervalsDict {
    kinds: SortedVec<Interval, String>,
    aliases: SortedVec<String, Interval>,
}

impl IntervalsDict {
    /// The interval-to-alias direction as a map.
    pub closed spec fn interval_map(&self) -> Map<Interval, Seq<char>> {
        self.kinds.as_map()
    }

    /// The alias-to-interval direction as a map.
    pub closed spec fn alias_map(&self) -> Map<Seq<char>, Interval> {
        self.aliases.as_map()
    }

    /// Both directions sorted, and each the inverse of the other.
    pub closed spec fn wf(&self) -> bool {
        &&& self.kinds.wf()
        &&& self.aliases.wf()
        &&& forall|i: Interval|
            #[trigger] self.interval_map().contains_key(i) ==> self.alias_map().contains_pair(
                self.interval_map()[i],
                i,
            )
        &&& forall|a: Seq<char>|
            #[trigger] self.alias_map().contains_key(a) ==> self.interval_map().contains_pair(
                self.alias_map()[a],
                a,
            )
    }

    pub fn new() -> (r: IntervalsDict)
        ensures
            r.wf(),
            r.interval_map() == Map::<Interval, Seq<char>>::empty(),
            r.alias_map() == Map::<Seq<char>, Interval>::empty(),
    {
        IntervalsDict { kinds: SortedVec::new(), aliases: SortedVec::new() }
    }

    /// Registers one `(interval, alias)` pair. Fails, and leaves the
    /// dictionary untouched, when either side already has a partner; the
    /// error names the stored partner and the rejected newcomer.
    pub fn add(&mut self, interval: Interval, alias: String) -> (r: Result<(), DictError>)
        requires
            old(self).wf(),
        ensures
            final(self).wf(),
            r is Ok <==> (!old(self).interval_map().contains_key(interval) && !old(
                self,
            ).alias_map().contains_key(alias@)),
            match r {
                Ok(_) => final(self).interval_map() == old(self).interval_map().insert(
                    interval,
                    alias@,
                ) && final(self).alias_map() == old(self).alias_map().insert(alias@, interval),
                Err(e) => *final(self) == *old(self) && match e {
                    DictError::IntervalTaken { interval: i2, old_alias, new_alias } => i2
                        == interval && new_alias@ == alias@ && old(
                        self,
                    ).interval_map().contains_pair(interval, old_alias@),
                    DictError::AliasTaken { alias: a2, old_interval, new_interval } => a2@ == alias@
                        && new_interval == interval && !old(self).interval_map().contains_key(
                        interval,
                    ) && old(self).alias_map().contains_pair(alias@, old_interval),
                },
            },
    {
        proof {
            lemma_as_map_entries::<Interval, String>(self.kinds.entries());
            lemma_as_map_entries::<String, Interval>(self.aliases.entries());
        }
        match self.kinds.entry(interval) {
            Entry::Occupied(o) => {
                let stored = o.value(&self.kinds);
                Err(
                    DictError::IntervalTaken {
                        interval,
                        old_alias: stored.clone(),
                        new_alias: alias,
                    },
                )
            },
            Entry::Vacant(kinds_entry) => {
                match self.aliases.entry(alias.clone()) {
                    Entry::Occupied(o) => {
                        let stored = o.value(&self.aliases);
                        Err(
                            DictError::AliasTaken {
                                alias,
                                old_interval: *stored,
                                new_interval: interval,
                            },
                        )
                    },
                    Entry::Vacant(aliases_entry) => {
                        let ghost im0 = self.interval_map();
                        let ghost am0 = self.alias_map();
                        aliases_entry.insert(&mut self.aliases, interval);
                        kinds_entry.insert(&mut self.kinds, alias);
                        proof {
                            let im1 = self.interval_map();
                            let am1 = self.alias_map();
                            assert forall|i: Interval| #[trigger]
                                im1.contains_key(i) implies am1.contains_pair(im1[i], i) by {
                                if i != interval {
                                    assert(im0.contains_pair(i, im0[i]));
                                    assert(am0.contains_pair(im0[i], i));
                                    assert(im0[i] != alias@);
                                }
                            }
                            assert forall|a: Seq<char>| #[trigger]
                                am1.contains_key(a) implies im1.contains_pair(am1[a], a) by {
                                if a != alias@ {
                                    assert(am0.contains_pair(a, am0[a]));
                                    assert(im0.contains_pair(am0[a], a));
                                    assert(am0[a] != interval);
                                }
                            }
                        }
                        Ok(())
                    },
                }
            },
        }
    }

    /// The alias registered for `interval`, if any.
    pub fn to_alias(&self, interval: Interval) -> (r: Option<&str>)
        requires
            self.wf(),
        ensures
            match r {
                Some(a) => self.interval_map().contains_key(interval) && a@
                    == self.interval_map()[interval],
                None => !self.interval_map().contains_key(interval),
            },
    {
        match self.kinds.get(&interval) {
            Some(s) => Some(s.as_str()),
            None => None,
        }
    }

    /// The interval registered for `alias`, if any.
    pub fn to_interval(&self, alias: &str) -> (r: Option<Interval>)
        requires
            self.wf(),
        ensures
            match r {
                Some(i) => self.alias_map().contains_pair(alias@, i),
                None => !self.alias_map().contains_key(alias@),
            },
    {
        let key: String = alias.to_owned();
        match self.aliases.get(&key) {
            Some(i) => Some(*i),
            None => None,
        }
    }

    /// Every registered interval, shortest first.
    pub fn iter_intervals(&self) -> (r: Vec<Interval>)
        requires
            self.wf(),
        ensures
            forall|j: int| 0 <= j < r@.len() ==> self.interval_map().contains_key(#[trigger] r@[j]),
            forall|i: Interval| #[trigger] self.interval_map().contains_key(i) ==> r@.contains(i),
            forall|j: int, k: int|
                0 <= j < k < r@.len() ==> interval_le(#[trigger] r@[j], #[trigger] r@[k]) && r@[j]
                    != r@[k],
    {
        proof {
            lemma_as_map_entries::<Interval, String>(self.kinds.entries());
        }
        let n = self.kinds.len();
        let mut r: Vec<Interval> = Vec::new();
        let mut i: usize = 0;
        while i < n
            invariant
                self.wf(),
                n == self.kinds.entries().len(),
                i <= n,
                r@.len() == i as int,
                forall|j: int| 0 <= j < i ==> r@[j] == self.kinds.entries()[j].0,
            decreases n - i,
        {
            r.push(*self.kinds.key_at(i));
            i += 1;
        }
        proof {
            assert forall|j: int| 0 <= j < r@.len() implies self.interval_map().contains_key(
                #[trigger] r@[j],
            ) by {
                assert(self.kinds.as_map().contains_pair(
                    self.kinds.entries()[j].0.model(),
                    self.kinds.entries()[j].1@,
                ));
            }
            assert forall|j: int, k: int|
                0 <= j < k < r@.len() implies interval_le(#[trigger] r@[j], #[trigger] r@[k])
                    && r@[j] != r@[k] by {
                assert(crate::sorted_vec::m_lt::<Interval>(
                    self.kinds.entries()[j].0.model(),
                    self.kinds.entries()[k].0.model(),
                ));
            }
            assert forall|i2: Interval| #[trigger]
                self.interval_map().contains_key(i2) implies r@.contains(i2) by {
                assert(contains_mkey(self.kinds.entries(), i2));
                let j = choose|j: int|
                    0 <= j < self.kinds.entries().len()
                        && #[trigger] self.kinds.entries()[j].0.model() == i2;
                assert(r@[j] == i2);
            }
        }
        r
    }

    /// Registers every `(value, alias)` pair under one kind, stopping at
    /// the first rejection.
    #[verifier::loop_isolation(false)]
    pub fn with(self, kind: IntervalKind, pairs: &[(u8, &str)]) -> (r: Result<
        IntervalsDict,
        DictError,
    >)
        requires
            self.wf(),
        ensures
            match r {
                Ok(d) => d.wf() && spec_add_all(
                    self.interval_map(),
                    self.alias_map(),
                    kind,
                    dict_pairs_view(pairs@),
                ) == Some((d.interval_map(), d.alias_map())),
                Err(e) => spec_add_all(
                    self.interval_map(),
                    self.alias_map(),
                    kind,
                    dict_pairs_view(pairs@),
                ) is None && (exists|k: int|
                    0 <= k < dict_pairs_view(pairs@).len() && (#[trigger] spec_add_all(
                        self.interval_map(),
                        self.alias_map(),
                        kind,
                        dict_pairs_view(pairs@).take(k),
                    ) matches Some(m) && spec_with_err_at(
                        m.0,
                        m.1,
                        kind,
                        dict_pairs_view(pairs@)[k],
                        e,
                    ))),
            },
    {
        let ghost im0 = self.interval_map();
        let ghost am0 = self.alias_map();
        let ghost vp = dict_pairs_view(pairs@);
        let mut this = self;
        let n = pairs.len();
        let mut i: usize = 0;
        proof {
            assert(vp.skip(0) =~= vp);
        }
        while i < n
            invariant
                this.wf(),
                n == pairs@.len(),
                vp == dict_pairs_view(pairs@),
                vp.len() == n,
                i <= n,
                spec_add_all(im0, am0, kind, vp) == spec_add_all(
                    this.interval_map(),
                    this.alias_map(),
                    kind,
                    vp.skip(i as int),
                ),
                spec_add_all(im0, am0, kind, vp.take(i as int)) == Some(
                    (this.interval_map(), this.alias_map()),
                ),
            decreases n - i,
        {
            let (value, alias) = pairs[i];
            let ghost pre_im = this.interval_map();
            let ghost pre_am = this.alias_map();
            let res = this.add(Interval { kind, value }, alias.to_owned());
            proof {
                assert(vp.skip(i as int)[0] == vp[i as int]);
                assert(vp[i as int] == (value, alias@));
                assert(vp.skip(i as int).drop_first() =~= vp.skip(i as int + 1));
                assert(vp.take(i as int + 1) =~= vp.take(i as int).push(vp[i as int]));
                lemma_spec_add_all_snoc(im0, am0, kind, vp.take(i as int), vp[i as int]);
                assert(spec_add_all(pre_im, pre_am, kind, seq![vp[i as int]]) == (
                if pre_im.contains_key(Interval { kind, value }) || pre_am.contains_key(alias@) {
                    None
                } else {
                    Some(
                        (
                            pre_im.insert(Interval { kind, value }, alias@),
                            pre_am.insert(alias@, Interval { kind, value }),
                        ),
                    )
                })) by {
                    reveal_with_fuel(spec_add_all, 2);
                    assert(seq![vp[i as int]].drop_first() =~= Seq::<(u8, Seq<char>)>::empty());
                }
            }
            match res {
                Ok(_) => {
                    proof {
                        assert(spec_add_all(pre_im, pre_am, kind, vp.skip(i as int))
                            == spec_add_all(
                            pre_im.insert(Interval { kind, value }, alias@),
                            pre_am.insert(alias@, Interval { kind, value }),
                            kind,
                            vp.skip(i as int).drop_first(),
                        ));
                    }
                    i += 1;
                },
                Err(e) => {
                    proof {
                        assert(spec_add_all(pre_im, pre_am, kind, vp.skip(i as int)) is None);
                        assert(spec_add_all(im0, am0, kind, vp.take(i as int)) matches Some(m)
                            && spec_with_err_at(m.0, m.1, kind, vp[i as int], e));
                    }
                    return Err(e);
                },
            }
        }
        proof {
            assert(vp.skip(n as int).len() == 0);
        }
        Ok(this)
    }
}

impl Default for IntervalsDict {
    fn default() -> (r: IntervalsDict)
        ensures
            r.wf(),
            r.interval_map() == Map::<Interval, Seq<char>>::empty(),
            r.alias_map() == Map::<Seq<char>, Interval>::empty(),
    {
        IntervalsDict::new()
    }
}

/// The error `with` reports when pair `p` hits maps `im`/`am`: the same
/// error `add` would report, naming the stored partner and the newcomer.
pub open spec fn spec_with_err_at(
    im: Map<Interval, Seq<char>>,
    am: Map<Seq<char>, Interval>,
    kind: IntervalKind,
    p: (u8, Seq<char>),
    e: DictError,
) -> bool {
    let interval = Interval { kind, value: p.0 };
    let alias = p.1;
    match e {
        DictError::IntervalTaken { interval: i2, old_alias, new_alias } => i2 == interval
            && new_alias@ == alias && im.contains_pair(interval, old_alias@),
        DictError::AliasTaken { alias: a2, old_interval, new_interval } => a2@ == alias
            && new_interval == interval && !im.contains_key(interval) && am.contains_pair(
            alias,
            old_interval,
        ),
    }
}

/// The pairs handed to [`IntervalsDict::with`], with aliases as sequences.
pub open spec fn dict_pairs_view(pairs: Seq<(u8, &str)>) -> Seq<(u8, Seq<char>)> {
    pairs.map_values(|p: (u8, &str)| (p.0, p.1@))
}

/// Folds `add` over a list of `(value, alias)` pairs of one kind: the maps
/// after all registrations, or `None` at the first conflict.
pub open spec fn spec_add_all(
    im: Map<Interval, Seq<char>>,
    am: Map<Seq<char>, Interval>,
    kind: IntervalKind,
    pairs: Seq<(u8, Seq<char>)>,
) -> Option<(Map<Interval, Seq<char>>, Map<Seq<char>, Interval>)>
    decreases pairs.len(),
{
    if pairs.len() == 0 {
        Some((im, am))
    } else {
        let interval = Interval { kind, value: pairs[0].0 };
        let alias = pairs[0].1;
        if im.contains_key(interval) || am.contains_key(alias) {
            None
        } else {
            spec_add_all(im.insert(interval, alias), am.insert(alias, interval), kind,
                pairs.drop_first())
        }
    }
}

/// Registering one more pair applies one more step to the fold.
pub proof fn lemma_spec_add_all_snoc(
    im: Map<Interval, Seq<char>>,
    am: Map<Seq<char>, Interval>,
    kind: IntervalKind,
    pairs: Seq<(u8, Seq<char>)>,
    p: (u8, Seq<char>),
)
    ensures
        spec_add_all(im, am, kind, pairs.push(p)) == (match spec_add_all(im, am, kind, pairs) {
            Some(m) => spec_add_all(m.0, m.1, kind, seq![p]),
            None => None,
        }),
    decreases pairs.len(),
{
    reveal_with_fuel(spec_add_all, 3);
    if pairs.len() == 0 {
        assert(pairs.push(p)[0] == p);
        assert(pairs.push(p).drop_first() =~= Seq::<(u8, Seq<char>)>::empty());
        assert(seq![p].drop_first() =~= Seq::<(u8, Seq<char>)>::empty());
    } else {
        assert(pairs.push(p)[0] == pairs[0]);
        assert(pairs.push(p).drop_first() =~= pairs.drop_first().push(p));
        let interval = Interval { kind, value: pairs[0].0 };
        let alias = pairs[0].1;
        if !im.contains_key(interval) && !am.contains_key(alias) {
            lemma_spec_add_all_snoc(
                im.insert(interval, alias),
                am.insert(alias, interval),
                kind,
                pairs.drop_first(),
                p,
            );
        }
    }
}

/// Every pair registered in one direction is registered in the other:
/// translating an interval to its alias and back returns the interval.
pub proof fn lemma_round_trip_interval(d: &IntervalsDict, interval: Interval, alias: Seq<char>)
    requires
        d.wf(),
        d.interval_map().contains_pair(interval, alias),
    ensures
        d.alias_map().contains_pair(alias, interval),
{
}

/// The inverse direction: translating an alias to its interval and back
/// returns the alias.
pub proof fn lemma_round_trip_alias(d: &IntervalsDict, alias: Seq<char>, interval: Interval)
    requires
        d.wf(),
        d.alias_map().contains_pair(alias, interval),
    ensures
        d.interval_map().contains_pair(interval, alias),
{
}

/// The interval-to-spelling direction of the database dictionary.
pub open spec fn database_intervals_interval_map() -> Map<Interval, Seq<char>> {
    Map::empty()
        .insert(iv(IntervalKind::Minute, 1), "1m"@)
        .insert(iv(IntervalKind::Minute, 15), "15m"@)
        .insert(iv(IntervalKind::Hour, 1), "1h"@)
        .insert(iv(IntervalKind::Day, 1), "1d"@)
}

/// The spelling-to-interval direction of the database dictionary.
pub open spec fn database_intervals_alias_map() -> Map<Seq<char>, Interval> {
    Map::empty()
        .insert("1m"@, iv(IntervalKind::Minute, 1))
        .insert("15m"@, iv(IntervalKind::Minute, 15))
        .insert("1h"@, iv(IntervalKind::Hour, 1))
        .insert("1d"@, iv(IntervalKind::Day, 1))
}

/// The interval spellings used by the database layer.
pub fn database_intervals() -> (r: Result<IntervalsDict, DictError>)
    ensures
        r is Ok,
        r matches Ok(d) ==> d.wf() && d.interval_map() == database_intervals_interval_map()
            && d.alias_map() == database_intervals_alias_map(),
{
    proof {
        reveal_strlit("1m");
        reveal_strlit("15m");
        reveal_strlit("1h");
        reveal_strlit("1d");
        assert("1m"@.len() == 2);
        assert("15m"@.len() == 3);
        assert("1h"@.len() == 2);
        assert("1d"@.len() == 2);
        assert("1m"@[1] == 'm');
        assert("1h"@[1] == 'h');
        assert("1d"@[1] == 'd');
        assert("1m"@ != "15m"@);
        assert("1m"@ != "1h"@);
        assert("1m"@ != "1d"@);
        assert("15m"@ != "1h"@);
        assert("15m"@ != "1d"@);
        assert("1h"@ != "1d"@);
    }
    let mut d = IntervalsDict::new();
    d.add(Interval { kind: IntervalKind::Minute, value: 1 }, "1m".to_owned())?;
    d.add(Interval { kind: IntervalKind::Minute, value: 15 }, "15m".to_owned())?;
    d.add(Interval { kind: IntervalKind::Hour, value: 1 }, "1h".to_owned())?;
    d.add(Interval { kind: IntervalKind::Day, value: 1 }, "1d".to_owned())?;
    Ok(d)
}

} // verus!
