//! Named parameters of a plugin source or an effect, kept in the order of
//! their names, each name at most once.

use crate::order::{lemma_seq_lt_asymmetric, lemma_seq_lt_irreflexive, lemma_seq_lt_total, lemma_seq_lt_transitive, seq_lt, str_eq, str_lt};
use crate::param::{DocParam, DocParamView};
use vstd::prelude::*;

verus! {

/// One named parameter.
#[derive(Debug, Clone, PartialEq)]
pub struct ParamEntry {
    pub name: String,
    pub param: DocParam,
}

/// The names of a view, strictly increasing.
pub open spec fn view_sorted(v: Seq<(Seq<char>, DocParamView)>) -> bool {
    forall|i: int, j: int| 0 <= i < j < v.len() ==> seq_lt(#[trigger] v[i].0, #[trigger] v[j].0)
}

/// The entries' names, strictly increasing.
pub open spec fn entries_sorted(s: Seq<ParamEntry>) -> bool {
    forall|i: int, j: int|
        0 <= i < j < s.len() ==> seq_lt(#[trigger] s[i].name@, #[trigger] s[j].name@)
}

/// The view of a list of entries: each name with the value of its parameter.
pub open spec fn entries_view(s: Seq<ParamEntry>) -> Seq<(Seq<char>, DocParamView)> {
    s.map_values(|e: ParamEntry| (e.name@, e.param@))
}

/// The index of `name` in a view, if it is there.
pub open spec fn position_of(v: Seq<(Seq<char>, DocParamView)>, name: Seq<char>) -> Option<int> {
    if exists|i: int| 0 <= i < v.len() && v[i].0 == name {
        Some(choose|i: int| 0 <= i < v.len() && v[i].0 == name)
    } else {
        None
    }
}

/// Named parameters in the order of their names (a sorted map from name to
/// parameter).
#[derive(Debug, PartialEq)]
pub struct ParamMap {
    entries: Vec<ParamEntry>,
}

impl View for ParamMap {
    type V = Seq<(Seq<char>, DocParamView)>;

    closed spec fn view(&self) -> Seq<(Seq<char>, DocParamView)> {
        entries_view(self.entries@)
    }
}

/// In a view with strictly increasing names, a name occurs at most once.
pub proof fn lemma_sorted_names_unique(v: Seq<(Seq<char>, DocParamView)>, i: int, j: int)
    requires
        view_sorted(v),
        0 <= i < v.len(),
        0 <= j < v.len(),
        v[i].0 == v[j].0,
    ensures
        i == j,
{
    if i < j {
        lemma_seq_lt_irreflexive(v[i].0);
    } else if j < i {
        lemma_seq_lt_irreflexive(v[i].0);
    }
}

/// The views before and after setting `name` to `p`, as `insert` leaves them:
/// an existing entry of that name is replaced in place, otherwise the entry
/// is added at some position.
pub open spec fn inserted(
    before: Seq<(Seq<char>, DocParamView)>,
    after: Seq<(Seq<char>, DocParamView)>,
    name: Seq<char>,
    p: DocParamView,
) -> bool {
    match position_of(before, name) {
        Some(i) => after == before.update(i, (name, p)),
        None => exists|k: int| 0 <= k <= before.len() && after == before.insert(k, (name, p)),
    }
}

/// After a parameter is set under `name`, looking `name` up finds it; every
/// other name is found exactly when it was found before, with the same
/// parameter.
pub proof fn lemma_lookup_after_insert(
    before: Seq<(Seq<char>, DocParamView)>,
    after: Seq<(Seq<char>, DocParamView)>,
    name: Seq<char>,
    p: DocParamView,
    other: Seq<char>,
)
    requires
        view_sorted(before),
        view_sorted(after),
        inserted(before, after, name, p),
    ensures
        position_of(after, name) matches Some(i) && after[i].1 == p,
        other != name ==> (position_of(after, other) is Some <==> position_of(before, other) is Some),
        other != name && position_of(before, other) is Some ==> after[position_of(after, other)->0].1
            == before[position_of(before, other)->0].1,
{
    match position_of(before, name) {
        Some(i) => {
            assert(after[i].0 == name);
            let j = position_of(after, name)->0;
            lemma_sorted_names_unique(after, i, j);
            assert forall|m: int| 0 <= m < after.len() implies #[trigger] after[m].0 == before[m].0 by {
            }
            if other != name {
                if position_of(before, other) is Some {
                    let b = position_of(before, other)->0;
                    assert(after[b].0 == other);
                    let a = position_of(after, other)->0;
                    lemma_sorted_names_unique(after, a, b);
                    assert(b != i);
                }
                if position_of(after, other) is Some {
                    let a = position_of(after, other)->0;
                    assert(before[a].0 == other);
                }
            }
        },
        None => {
            let k = choose|k: int| 0 <= k <= before.len() && after == before.insert(k, (name, p));
            assert(after[k].0 == name);
            let j = position_of(after, name)->0;
            lemma_sorted_names_unique(after, k, j);
            if other != name {
                if position_of(before, other) is Some {
                    let b = position_of(before, other)->0;
                    let a0 = if b < k { b } else { b + 1 };
                    assert(after[a0] == before[b]);
                    let a = position_of(after, other)->0;
                    lemma_sorted_names_unique(after, a, a0);
                }
                if position_of(after, other) is Some {
                    let a = position_of(after, other)->0;
                    assert(a != k);
                    let b0 = if a < k { a } else { a - 1 };
                    assert(before[b0] == after[a]);
                }
            }
        },
    }
}

impl ParamMap {
    #[verifier::type_invariant]
    spec fn sorted(self) -> bool {
        entries_sorted(self.entries@)
    }

    /// The entries, in order of their names.
    pub closed spec fn entry_seq(self) -> Seq<ParamEntry> {
        self.entries@
    }

    /// The view of the map is its entries' names and parameters, entry by
    /// entry.
    pub proof fn lemma_view(self)
        ensures
            self@ == entries_view(self.entry_seq()),
            self@.len() == self.entry_seq().len(),
    {
    }

    /// An empty map.
    pub fn new() -> (m: ParamMap)
        ensures
            m.entry_seq().len() == 0,
            m@.len() == 0,
    {
        ParamMap { entries: Vec::new() }
    }

    pub fn len(&self) -> (n: usize)
        ensures
            n == self.entry_seq().len(),
    {
        self.entries.len()
    }

    pub fn is_empty(&self) -> (b: bool)
        ensures
            b == (self.entry_seq().len() == 0),
    {
        self.entries.len() == 0
    }

    /// The entry at position `i` in name order.
    pub fn entry(&self, i: usize) -> (e: &ParamEntry)
        requires
            i < self.entry_seq().len(),
        ensures
            *e == self.entry_seq()[i as int],
    {
        &self.entries[i]
    }

    /// The names of the map are strictly increasing.
    pub fn names_sorted(&self)
        ensures
            view_sorted(self@),
            entries_sorted(self.entry_seq()),
    {
        proof {
            use_type_invariant(self);
            assert forall|i: int, j: int| 0 <= i < j < self@.len() implies seq_lt(
                #[trigger] self@[i].0,
                #[trigger] self@[j].0,
            ) by {
                assert(self@[i].0 == self.entries@[i].name@);
                assert(self@[j].0 == self.entries@[j].name@);
            }
        }
    }

    /// The parameter named `name`, if there is one.
    pub fn get(&self, name: &str) -> (r: Option<&DocParam>)
        ensures
            r is Some <==> position_of(self@, name@) is Some,
            r matches Some(p) ==> p@ == self@[position_of(self@, name@)->0].1,
    {
        proof {
            use_type_invariant(self);
        }
        let mut i: usize = 0;
        while i < self.entries.len()
            invariant
                i <= self.entries@.len(),
                forall|j: int| 0 <= j < i ==> self@[j].0 != name@,
                self@ == entries_view(self.entries@),
            decreases self.entries.len() - i,
        {
            if str_eq(self.entries[i].name.as_str(), name) {
                self.names_sorted();
                proof {
                    assert(self@[i as int].0 == self.entries@[i as int].name@);
                    let k = position_of(self@, name@)->0;
                    lemma_sorted_names_unique(self@, i as int, k);
                }
                assert(self@[i as int].0 == self.entries@[i as int].name@);
                return Some(&self.entries[i].param);
            }
            i = i + 1;
        }
        None
    }

    /// Sets the parameter named `name` to `param` and gives back the one it
    /// replaces, if any. The names stay in order.
    pub fn insert(&mut self, name: String, param: DocParam) -> (r: Option<DocParam>)
        ensures
            view_sorted(final(self)@),
            inserted(old(self)@, final(self)@, name@, param@),
            match position_of(old(self)@, name@) {
                Some(i) => r matches Some(p) && p@ == old(self)@[i].1,
                None => r is None,
            },
    {
        proof {
            use_type_invariant(&*self);
        }
        let mut entries: Vec<ParamEntry> = Vec::new();
        std::mem::swap(&mut entries, &mut self.entries);
        let ghost before = entries@;
        let mut i: usize = 0;
        while i < entries.len()
            invariant
                entries@ == before,
                entries_sorted(before),
                i <= before.len(),
                forall|j: int| 0 <= j < i ==> seq_lt(#[trigger] before[j].name@, name@),
            ensures
                i <= before.len(),
                forall|j: int| 0 <= j < i ==> seq_lt(#[trigger] before[j].name@, name@),
                i < before.len() ==> !seq_lt(before[i as int].name@, name@),
            decreases entries.len() - i,
        {
            if !str_lt(entries[i].name.as_str(), name.as_str()) {
                break;
            }
            i = i + 1;
        }
        let found = i < entries.len() && str_eq(entries[i].name.as_str(), name.as_str());
        let ghost old_view = entries_view(before);
        proof {
            assert forall|j: int| 0 <= j < i implies old_view[j].0 != name@ by {
                lemma_seq_lt_irreflexive(name@);
            }
            if i < before.len() && !found {
                lemma_seq_lt_total(before[i as int].name@, name@);
                assert(seq_lt(name@, before[i as int].name@));
            }
            assert forall|j: int| i < j < before.len() implies old_view[j].0 != name@ by {
                if i < before.len() {
                    assert(seq_lt(before[i as int].name@, before[j].name@));
                    if found {
                        lemma_seq_lt_irreflexive(name@);
                    } else {
                        lemma_seq_lt_transitive(name@, before[i as int].name@, before[j].name@);
                    }
                    lemma_seq_lt_irreflexive(name@);
                }
            }
        }
        let r;
        if found {
            let ghost k = position_of(old_view, name@)->0;
            proof {
                assert(old_view[i as int].0 == name@);
                assert(k == i as int) by {
                    if k != i as int {
                        if (k as int) < (i as int) {
                        } else {
                        }
                    }
                }
            }
            let old_entry = entries.remove(i);
            let ParamEntry { name: old_name, param: old_param } = old_entry;
            entries.insert(i, ParamEntry { name: old_name, param });
            r = Some(old_param);
            proof {
                assert(entries_view(entries@) =~= old_view.update(i as int, (name@, param@)));
                assert forall|a: int, b: int|
                    0 <= a < b < entries@.len() implies seq_lt(
                    #[trigger] entries@[a].name@,
                    #[trigger] entries@[b].name@,
                ) by {
                    if a == i as int {
                        assert(entries@[a].name@ == before[a].name@);
                    }
                    if b == i as int {
                        assert(entries@[b].name@ == before[b].name@);
                    }
                }
            }
        } else {
            proof {
                assert(position_of(old_view, name@) is None);
            }
            let ghost new_name = name@;
            let ghost new_param = param@;
            entries.insert(i, ParamEntry { name, param });
            r = None;
            proof {
                assert(entries_view(entries@) =~= old_view.insert(i as int, (new_name, new_param)));
                assert forall|a: int, b: int|
                    0 <= a < b < entries@.len() implies seq_lt(
                    #[trigger] entries@[a].name@,
                    #[trigger] entries@[b].name@,
                ) by {
                    if b == i as int {
                        assert(entries@[b].name@ == new_name);
                        assert(entries@[a].name@ == before[a].name@);
                    } else if a == i as int {
                        assert(entries@[b].name@ == before[b - 1].name@);
                        if b - 1 > i as int {
                            lemma_seq_lt_transitive(
                                new_name,
                                before[i as int].name@,
                                before[b - 1].name@,
                            );
                        }
                    } else if a < i as int && b > i as int {
                        assert(entries@[b].name@ == before[b - 1].name@);
                        assert(entries@[a].name@ == before[a].name@);
                    } else if a > i as int {
                        assert(entries@[b].name@ == before[b - 1].name@);
                        assert(entries@[a].name@ == before[a - 1].name@);
                    } else {
                        assert(entries@[b].name@ == before[b].name@);
                        assert(entries@[a].name@ == before[a].name@);
                    }
                }
            }
        }
        self.entries = entries;
        proof {
            use_type_invariant(&*self);
        }
        self.names_sorted();
        r
    }

    /// A copy of the map.
    pub fn duplicate(&self) -> (r: ParamMap)
        ensures
            r@ == self@,
    {
        proof {
            use_type_invariant(self);
        }
        let mut entries: Vec<ParamEntry> = Vec::new();
        let mut i: usize = 0;
        while i < self.entries.len()
            invariant
                i <= self.entries@.len(),
                entries@.len() == i,
                forall|j: int|
                    0 <= j < i ==> (#[trigger] entries@[j]).name@ == self.entries@[j].name@
                        && entries@[j].param@ == self.entries@[j].param@,
                entries_sorted(self.entries@),
            decreases self.entries.len() - i,
        {
            let e = &self.entries[i];
            entries.push(ParamEntry { name: e.name.clone(), param: e.param.duplicate() });
            i = i + 1;
        }
        let r = ParamMap { entries };
        assert(r@ =~= self@);
        r
    }
}

impl Clone for ParamMap {
    fn clone(&self) -> (r: ParamMap)
        ensures
            r@ == self@,
    {
        self.duplicate()
    }
}

} // verus!
