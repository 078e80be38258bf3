//! A map keyed by names, kept as a vector sorted strictly by name. Sorted
//! storage keeps names unique and makes every listing come out in name order.
use vstd::prelude::*;

use crate::text::{
    lemma_str_lt_irreflexive, lemma_str_lt_total,
    lemma_str_lt_transitive, str_equal, str_less, str_lt, strings_view,
};

verus! {

/// Values that can be copied with the copy's view known.
pub trait Duplicate: View + Sized {
    fn duplicate(&self) -> (r: Self)
        ensures
            r@ == self@,
    ;
}

impl Duplicate for String {
    fn duplicate(&self) -> (r: Self)
        ensures
            r@ == self@,
    {
        self.clone()
    }
}

/// Two strictly sorted sequences holding the same names are the same.
pub proof fn lemma_sorted_unique(a: Seq<Seq<char>>, b: Seq<Seq<char>>)
    requires
        strictly_sorted(a),
        strictly_sorted(b),
        a.to_set() == b.to_set(),
    ensures
        a == b,
    decreases a.len(),
{
    if a.len() == 0 {
        if b.len() > 0 {
            assert(b.to_set().contains(b[0]));
        }
        assert(a =~= b);
    } else {
        assert(a.to_set().contains(a[0]));
        let j = choose|j: int| 0 <= j < b.len() && b[j] == a[0];
        assert(b.to_set().contains(b[0]));
        let i = choose|i: int| 0 <= i < a.len() && a[i] == b[0];
        if j > 0 {
            // b[0] < b[j] == a[0] <= a[i] == b[0]
            assert(str_lt(b[0], b[j]));
            if i > 0 {
                assert(str_lt(a[0], a[i]));
                lemma_str_lt_transitive(b[0], a[0], b[0]);
            }
            lemma_str_lt_irreflexive(b[0]);
        }
        let a1 = a.drop_first();
        let b1 = b.drop_first();
        assert forall|x: Seq<char>| a1.to_set().contains(x) == b1.to_set().contains(x) by {
            if a1.to_set().contains(x) {
                let k = choose|k: int| 0 <= k < a1.len() && a1[k] == x;
                assert(a.to_set().contains(x));
                assert(str_lt(a[0], a[k + 1]));
                let m = choose|m: int| 0 <= m < b.len() && b[m] == x;
                if m == 0 {
                    lemma_str_lt_irreflexive(x);
                }
                assert(b1[m - 1] == x);
            }
            if b1.to_set().contains(x) {
                let k = choose|k: int| 0 <= k < b1.len() && b1[k] == x;
                assert(b.to_set().contains(x));
                assert(str_lt(b[0], b[k + 1]));
                let m = choose|m: int| 0 <= m < a.len() && a[m] == x;
                if m == 0 {
                    lemma_str_lt_irreflexive(x);
                }
                assert(a1[m - 1] == x);
            }
        }
        assert(a1.to_set() =~= b1.to_set());
        lemma_sorted_unique(a1, b1);
        assert(a =~= seq![a[0]] + a1);
        assert(b =~= seq![b[0]] + b1);
    }
}

/// The names of a finite set in increasing order.
pub open spec fn sorted_names(s: Set<Seq<char>>) -> Seq<Seq<char>> {
    choose|q: Seq<Seq<char>>| strictly_sorted(q) && q.to_set() == s
}

pub struct NameMap<V> {
    entries: Vec<(String, V)>,
}

/// Names in strictly increasing order.
pub open spec fn strictly_sorted(names: Seq<Seq<char>>) -> bool {
    forall|i: int, j: int| 0 <= i < j < names.len() ==> str_lt(#[trigger] names[i], #[trigger] names[j])
}

pub open spec fn names_of<V>(entries: Seq<(String, V)>) -> Seq<Seq<char>> {
    Seq::new(entries.len(), |i: int| entries[i].0@)
}

pub open spec fn vals_of<V: View>(entries: Seq<(String, V)>) -> Seq<V::V> {
    Seq::new(entries.len(), |i: int| entries[i].1@)
}

impl<V> NameMap<V> {
    /// The names, in storage order.
    pub closed spec fn names(&self) -> Seq<Seq<char>> {
        names_of(self.entries@)
    }

    /// The names are stored in strictly increasing order; every map holds
    /// this, as `use_type_invariant` shows of any value in hand.
    #[verifier::type_invariant]
    pub open spec fn is_sorted(&self) -> bool {
        strictly_sorted(self.names())
    }

    pub fn len(&self) -> (r: usize)
        ensures
            r == self.names().len(),
    {
        self.entries.len()
    }

    pub fn name_at(&self, i: usize) -> (r: &String)
        requires
            i < self.names().len(),
        ensures
            r@ == self.names()[i as int],
    {
        &self.entries[i].0
    }

    /// Position of `name` among the names, if present.
    fn find(&self, name: &str) -> (r: Option<usize>)
        ensures
            match r {
                Some(i) => i < self.names().len() && self.names()[i as int] == name@,
                None => forall|i: int| 0 <= i < self.names().len() ==> self.names()[i] != name@,
            },
    {
        let mut i: usize = 0;
        while i < self.entries.len()
            invariant
                i <= self.entries@.len(),
                forall|j: int| 0 <= j < i ==> self.names()[j] != name@,
            decreases self.entries@.len() - i,
        {
            if str_equal(self.entries[i].0.as_str(), name) {
                return Some(i);
            }
            i = i + 1;
        }
        None
    }
}

/// The last position that holds `k`, or -1.
pub open spec fn index_of(names: Seq<Seq<char>>, k: Seq<char>) -> int
    decreases names.len(),
{
    if names.len() == 0 {
        -1
    } else if names.last() == k {
        names.len() - 1
    } else {
        index_of(names.drop_last(), k)
    }
}

pub proof fn lemma_index_of(names: Seq<Seq<char>>, k: Seq<char>)
    ensures
        -1 <= index_of(names, k) < names.len(),
        index_of(names, k) >= 0 ==> names[index_of(names, k)] == k,
        index_of(names, k) == -1 ==> forall|i: int| 0 <= i < names.len() ==> names[i] != k,
    decreases names.len(),
{
    if names.len() > 0 && names.last() != k {
        lemma_index_of(names.drop_last(), k);
        assert forall|i: int| 0 <= i < names.len() - 1 implies names[i] == names.drop_last()[i] by {}
    }
}

impl<V: View> View for NameMap<V> {
    type V = Map<Seq<char>, V::V>;

    closed spec fn view(&self) -> Map<Seq<char>, V::V> {
        Map::new(
            |k: Seq<char>| exists|i: int| 0 <= i < self.names().len() && self.names()[i] == k,
            |k: Seq<char>| self.value_views()[index_of(self.names(), k)],
        )
    }
}

impl<V: View> NameMap<V> {
    /// The value stored under each position, as seen through the map.
    pub closed spec fn value_views(&self) -> Seq<V::V> {
        vals_of(self.entries@)
    }

    /// The map holds exactly the stored names, each with the value stored
    /// beside it.
    pub proof fn lemma_view(&self)
        requires
            self.is_sorted(),
        ensures
            self.value_views().len() == self.names().len(),
            forall|k: Seq<char>|
                self@.contains_key(k) <==> exists|i: int|
                    0 <= i < self.names().len() && #[trigger] self.names()[i] == k,
            forall|i: int|
                0 <= i < self.names().len() ==> self@.contains_key(#[trigger] self.names()[i])
                    && self@[self.names()[i]] == self.value_views()[i],
    {
        assert forall|k: Seq<char>|
            self@.contains_key(k) <==> exists|i: int|
                0 <= i < self.names().len() && #[trigger] self.names()[i] == k by {
            if self@.contains_key(k) {
                let i = choose|i: int| 0 <= i < self.names().len() && self.names()[i] == k;
                assert(self.names()[i] == k);
            }
        }
        assert forall|n: int| 0 <= n < self.names().len() implies self@.contains_key(
            #[trigger] self.names()[n],
        ) && self@[self.names()[n]] == self.value_views()[n] by {
            self.lemma_view_at(n);
        }
    }

    proof fn lemma_view_at(&self, n: int)
        requires
            self.is_sorted(),
            0 <= n < self.names().len(),
        ensures
            self@.contains_key(self.names()[n]),
            self@[self.names()[n]] == self.value_views()[n],
    {
        let k = self.names()[n];
        assert(self.entries@[n].0@ == k);
        lemma_index_of(self.names(), k);
        let i = index_of(self.names(), k);
        assert(self@.contains_key(k));
        assert(self.value_views()[n] == self.entries@[n].1@);
        if i < n {
            assert(str_lt(self.names()[i], self.names()[n]));
            lemma_str_lt_irreflexive(k);
        } else if n < i {
            assert(str_lt(self.names()[n], self.names()[i]));
            lemma_str_lt_irreflexive(k);
        }
    }

    pub fn new() -> (r: Self)
        ensures
            r@ == Map::<Seq<char>, V::V>::empty(),
            r.names() == Seq::<Seq<char>>::empty(),
    {
        let r = NameMap { entries: Vec::new() };
        assert(r@ =~= Map::<Seq<char>, V::V>::empty());
        assert(r.names() =~= Seq::<Seq<char>>::empty());
        r
    }

    /// A copy with the same names and values.
    pub fn duplicate(&self) -> (r: Self)
        where
            V: Duplicate,
        ensures
            r@ == self@,
            r.names() == self.names(),
            r.value_views() == self.value_views(),
    {
        proof {
            use_type_invariant(self);
        }
        let mut entries: Vec<(String, V)> = Vec::new();
        let mut i: usize = 0;
        while i < self.entries.len()
            invariant
                i <= self.entries@.len(),
                names_of(entries@) == self.names().subrange(0, i as int),
                vals_of(entries@) == self.value_views().subrange(0, i as int),
            decreases self.entries@.len() - i,
        {
            let name = self.entries[i].0.clone();
            let value = self.entries[i].1.duplicate();
            let ghost before = entries@;
            assert(names_of(before).len() == i);
            entries.push((name, value));
            proof {
                assert forall|j: int| 0 <= j <= i implies #[trigger] names_of(entries@)[j] == self.names()[j]
                    && vals_of(entries@)[j] == self.value_views()[j] by {
                    if j < i {
                        assert(entries@[j] == before[j]);
                        assert(names_of(before)[j] == self.names().subrange(0, i as int)[j]);
                        assert(vals_of(before)[j] == self.value_views().subrange(0, i as int)[j]);
                    }
                }
            }
            i = i + 1;
            assert(names_of(entries@) =~= self.names().subrange(0, i as int));
            assert(vals_of(entries@) =~= self.value_views().subrange(0, i as int));
        }
        assert(names_of(entries@) =~= self.names());
        assert(vals_of(entries@) =~= self.value_views());
        let r = NameMap { entries };
        assert(r@ =~= self@);
        r
    }

    /// The names, which are the map's keys in increasing order.
    pub fn keys(&self) -> (r: Vec<String>)
        ensures
            strings_view(r@) == self.names(),
            self.names() == sorted_names(self@.dom()),
    {
        proof {
            use_type_invariant(self);
            self.lemma_names_are_sorted_keys();
        }
        let mut r: Vec<String> = Vec::new();
        let mut i: usize = 0;
        while i < self.entries.len()
            invariant
                i <= self.entries@.len(),
                strings_view(r@) == self.names().subrange(0, i as int),
            decreases self.entries@.len() - i,
        {
            let ghost before = r@;
            assert(strings_view(before).len() == i);
            let name = self.entries[i].0.clone();
            r.push(name);
            proof {
                assert forall|j: int| 0 <= j <= i implies #[trigger] strings_view(r@)[j]
                    == self.names()[j] by {
                    if j < i {
                        assert(r@[j] == before[j]);
                        assert(strings_view(before)[j] == self.names().subrange(0, i as int)[j]);
                    }
                }
            }
            i = i + 1;
            assert(strings_view(r@) =~= self.names().subrange(0, i as int));
        }
        assert(strings_view(r@) =~= self.names());
        r
    }

    /// The stored names are the keys of the map in increasing order.
    pub proof fn lemma_names_are_sorted_keys(&self)
        requires
            self.is_sorted(),
        ensures
            self.names() == sorted_names(self@.dom()),
            self@.dom().finite(),
    {
        self.lemma_view();
        assert(self.names().to_set() =~= self@.dom());
        let q = sorted_names(self@.dom());
        assert(strictly_sorted(self.names()) && self.names().to_set() == self@.dom());
        lemma_sorted_unique(q, self.names());
    }

    pub fn value_at(&self, i: usize) -> (r: &V)
        requires
            i < self.names().len(),
        ensures
            r@ == self.value_views()[i as int],
            r@ == self@[self.names()[i as int]],
    {
        proof {
            use_type_invariant(self);
            self.lemma_view();
        }
        &self.entries[i].1
    }

    pub fn contains_key(&self, name: &str) -> (r: bool)
        ensures
            r == self@.contains_key(name@),
    {
        proof {
            use_type_invariant(self);
            self.lemma_view();
        }
        self.find(name).is_some()
    }

    pub fn get(&self, name: &str) -> (r: Option<&V>)
        ensures
            r.is_some() == self@.contains_key(name@),
            r.is_some() ==> r.unwrap()@ == self@[name@],
    {
        proof {
            use_type_invariant(self);
            self.lemma_view();
        }
        match self.find(name) {
            Some(i) => Some(&self.entries[i].1),
            None => None,
        }
    }

    /// Sets the value under `name`, adding the name when it is new.
    #[verifier::rlimit(60)]
    pub fn insert(&mut self, name: String, value: V)
        ensures
            final(self)@ == old(self)@.insert(name@, value@),
    {
        proof {
            use_type_invariant(&*self);
            self.lemma_view();
        }
        let ghost old_self = *self;
        let ghost old_names = self.names();
        let ghost old_vals = self.value_views();
        let ghost k = name@;
        let ghost vv = value@;
        let mut entries: Vec<(String, V)> = Vec::new();
        std::mem::swap(&mut self.entries, &mut entries);
        assert(names_of(entries@) == old_names);
        let mut pos: usize = 0;
        loop
            invariant
                k == name@,
                pos <= entries@.len(),
                names_of(entries@) == old_names,
                forall|j: int| 0 <= j < pos ==> str_lt(#[trigger] old_names[j], k),
            ensures
                pos <= entries@.len(),
                forall|j: int| 0 <= j < pos ==> str_lt(#[trigger] old_names[j], k),
                pos < entries@.len() ==> !str_lt(old_names[pos as int], k),
            decreases entries@.len() - pos,
        {
            if pos >= entries.len() {
                break;
            }
            assert(old_names[pos as int] == entries@[pos as int].0@);
            let less = str_less(entries[pos].0.as_str(), name.as_str());
            if !less {
                break;
            }
            pos = pos + 1;
        }
        if pos < entries.len() && str_equal(entries[pos].0.as_str(), name.as_str()) {
            entries.set(pos, (name, value));
            proof {
                assert(names_of(entries@) =~= old_names);
                assert(vals_of(entries@) =~= old_vals.update(pos as int, vv));
            }
        } else {
            proof {
                if pos < old_names.len() {
                    lemma_str_lt_total(old_names[pos as int], k);
                }
                assert forall|j: int| pos <= j < old_names.len() implies str_lt(
                    k,
                    #[trigger] old_names[j],
                ) by {
                    if j > pos {
                        lemma_str_lt_transitive(k, old_names[pos as int], old_names[j]);
                    }
                }
            }
            entries.insert(pos, (name, value));
            proof {
                assert(names_of(entries@) =~= old_names.insert(pos as int, k));
                assert(vals_of(entries@) =~= old_vals.insert(pos as int, vv));
                let nn = names_of(entries@);
                assert forall|i: int, j: int| 0 <= i < j < nn.len() implies str_lt(
                    #[trigger] nn[i],
                    #[trigger] nn[j],
                ) by {
                    if j == pos {
                    } else if i == pos {
                    } else if i < pos && pos < j {
                        lemma_str_lt_transitive(old_names[i], k, old_names[j - 1]);
                    } else if j < pos {
                    } else {
                        assert(nn[i] == old_names[i - 1]);
                    }
                }
            }
        }
        self.entries = entries;
        proof {
            self.lemma_view();
            let nn = self.names();
            assert forall|kk: Seq<char>| #[trigger]
                self@.contains_key(kk) == old_self@.insert(k, vv).contains_key(kk) by {
                if self@.contains_key(kk) {
                    let i = choose|i: int| 0 <= i < nn.len() && #[trigger] nn[i] == kk;
                    if kk != k {
                        if nn.len() == old_names.len() {
                            assert(old_names[i] == kk);
                        } else if i < pos {
                            assert(old_names[i] == kk);
                        } else {
                            assert(old_names[i - 1] == kk);
                        }
                    }
                }
                if old_self@.contains_key(kk) && kk != k {
                    let i = choose|i: int| 0 <= i < old_names.len() && #[trigger] old_names[i] == kk;
                    if nn.len() == old_names.len() {
                        assert(nn[i] == kk);
                    } else if i < pos {
                        assert(nn[i] == kk);
                    } else {
                        assert(nn[i + 1] == kk);
                    }
                }
                if kk == k {
                    assert(nn[pos as int] == k);
                }
            }
            assert forall|kk: Seq<char>| #[trigger] self@.contains_key(kk) implies self@[kk]
                == old_self@.insert(k, vv)[kk] by {
                let i = choose|i: int| 0 <= i < nn.len() && #[trigger] nn[i] == kk;
                if kk == k {
                    assert(nn[pos as int] == k);
                    if i != pos {
                        if i < pos {
                            assert(str_lt(nn[i], nn[pos as int]));
                        } else {
                            assert(str_lt(nn[pos as int], nn[i]));
                        }
                        lemma_str_lt_irreflexive(k);
                    }
                } else if nn.len() == old_names.len() {
                    assert(old_names[i] == kk);
                } else if i < pos {
                    assert(old_names[i] == kk);
                } else {
                    assert(old_names[i - 1] == kk);
                }
            }
            assert(self@ =~= old_self@.insert(k, vv));
        }
    }

    /// Removes `name`, handing back its value when it was present.
    pub fn remove(&mut self, name: &str) -> (r: Option<V>)
        ensures
            r.is_some() == old(self)@.contains_key(name@),
            r.is_some() ==> r.unwrap()@ == old(self)@[name@],
            final(self)@ == old(self)@.remove(name@),
    {
        proof {
            use_type_invariant(&*self);
            self.lemma_view();
        }
        let ghost old_self = *self;
        let ghost old_names = self.names();
        let ghost old_vals = self.value_views();
        match self.find(name) {
            None => {
                assert(self@ =~= old_self@.remove(name@));
                None
            },
            Some(pos) => {
                let mut entries: Vec<(String, V)> = Vec::new();
                std::mem::swap(&mut self.entries, &mut entries);
                let (_, v) = entries.remove(pos);
                proof {
                    let nn = names_of(entries@);
                    assert(nn =~= old_names.remove(pos as int));
                    assert(vals_of(entries@) =~= old_vals.remove(pos as int));
                    assert forall|i: int, j: int| 0 <= i < j < nn.len() implies str_lt(
                        #[trigger] nn[i],
                        #[trigger] nn[j],
                    ) by {
                        if i < pos && j >= pos {
                            assert(nn[j] == old_names[j + 1]);
                        } else if i >= pos {
                            assert(nn[i] == old_names[i + 1]);
                            assert(nn[j] == old_names[j + 1]);
                        }
                    }
                }
                self.entries = entries;
                proof {
                    self.lemma_view();
                    let nn = self.names();
                    let k = name@;
                    assert forall|kk: Seq<char>| #[trigger]
                        self@.contains_key(kk) == old_self@.remove(k).contains_key(kk) by {
                        if self@.contains_key(kk) {
                            let i = choose|i: int| 0 <= i < nn.len() && #[trigger] nn[i] == kk;
                            if i < pos {
                                assert(old_names[i] == kk);
                                assert(str_lt(old_names[i], old_names[pos as int]));
                            } else {
                                assert(old_names[i + 1] == kk);
                                assert(str_lt(old_names[pos as int], old_names[i + 1]));
                            }
                            if kk == k {
                                lemma_str_lt_irreflexive(k);
                            }
                        }
                        if old_self@.contains_key(kk) && kk != k {
                            let i = choose|i: int| 0 <= i < old_names.len() && #[trigger] old_names[i] == kk;
                            if i < pos {
                                assert(nn[i] == kk);
                            } else {
                                assert(nn[i - 1] == kk);
                            }
                        }
                    }
                    assert forall|kk: Seq<char>| #[trigger] self@.contains_key(kk) implies self@[kk]
                        == old_self@.remove(k)[kk] by {
                        let i = choose|i: int| 0 <= i < nn.len() && #[trigger] nn[i] == kk;
                        if i < pos {
                            assert(old_names[i] == kk);
                        } else {
                            assert(old_names[i + 1] == kk);
                        }
                    }
                    assert(self@ =~= old_self@.remove(k));
                }
                Some(v)
            },
        }
    }
}

} // verus!
