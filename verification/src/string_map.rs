//! A map from strings to strings, kept as a list of entries in increasing
//! key order. It stands for the `BTreeMap<String, String>` that Kubernetes
//! label sets and resolved template variables are held in.
use vstd::prelude::*;

verus! {

/// The abstract content of a list of `(key, value)` pairs: each key is bound
/// to the value of its last occurrence.
pub open spec fn pairs_to_map(p: Seq<(Seq<char>, Seq<char>)>) -> Map<Seq<char>, Seq<char>>
    decreases p.len(),
{
    if p.len() == 0 {
        Map::empty()
    } else {
        pairs_to_map(p.drop_last()).insert(p.last().0, p.last().1)
    }
}

/// No key occurs twice in `p`.
pub open spec fn keys_distinct(p: Seq<(Seq<char>, Seq<char>)>) -> bool {
    forall|i: int, j: int| 0 <= i < j < p.len() ==> #[trigger] p[i].0 != #[trigger] p[j].0
}

/// A key is bound in the map exactly when some pair carries it.
pub proof fn lemma_pairs_to_map_dom(p: Seq<(Seq<char>, Seq<char>)>, k: Seq<char>)
    ensures
        pairs_to_map(p).contains_key(k) <==> exists|i: int| 0 <= i < p.len() && #[trigger] p[i].0 == k,
    decreases p.len(),
{
    if p.len() > 0 {
        lemma_pairs_to_map_dom(p.drop_last(), k);
        if pairs_to_map(p).contains_key(k) && p.last().0 != k {
            let i = choose|i: int| 0 <= i < p.drop_last().len() && #[trigger] p.drop_last()[i].0 == k;
            assert(p[i].0 == k);
        }
        if exists|i: int| 0 <= i < p.len() && #[trigger] p[i].0 == k {
            let i = choose|i: int| 0 <= i < p.len() && #[trigger] p[i].0 == k;
            if i < p.len() - 1 {
                assert(p.drop_last()[i].0 == k);
            }
        }
    }
}

/// The value bound to a key is that of the last pair carrying it.
pub proof fn lemma_pairs_to_map_last(p: Seq<(Seq<char>, Seq<char>)>, j: int)
    requires
        0 <= j < p.len(),
        forall|i: int| j < i < p.len() ==> #[trigger] p[i].0 != p[j].0,
    ensures
        pairs_to_map(p).contains_key(p[j].0),
        pairs_to_map(p)[p[j].0] == p[j].1,
    decreases p.len(),
{
    if j < p.len() - 1 {
        let q = p.drop_last();
        assert forall|i: int| j < i < q.len() implies #[trigger] q[i].0 != q[j].0 by {
            assert(q[i] == p[i]);
        }
        lemma_pairs_to_map_last(q, j);
        assert(p.last().0 != p[j].0);
    }
}

/// Replacing the value of the pair at `j`, whose key occurs nowhere else,
/// rebinds that key and leaves every other binding as it was.
pub proof fn lemma_pairs_to_map_update(p: Seq<(Seq<char>, Seq<char>)>, j: int, v: Seq<char>)
    requires
        0 <= j < p.len(),
        keys_distinct(p),
    ensures
        pairs_to_map(p.update(j, (p[j].0, v))) == pairs_to_map(p).insert(p[j].0, v),
    decreases p.len(),
{
    let q = p.update(j, (p[j].0, v));
    if j == p.len() - 1 {
        assert(q.drop_last() == p.drop_last());
    } else {
        let pd = p.drop_last();
        assert(keys_distinct(pd)) by {
            assert forall|a: int, b: int| 0 <= a < b < pd.len() implies #[trigger] pd[a].0
                != #[trigger] pd[b].0 by {
                assert(pd[a] == p[a] && pd[b] == p[b]);
            }
        }
        lemma_pairs_to_map_update(pd, j, v);
        assert(q.drop_last() == pd.update(j, (pd[j].0, v)));
        assert(p.last().0 != p[j].0);
        assert(pairs_to_map(q) == pairs_to_map(p).insert(p[j].0, v));
    }
}

/// Appending a pair binds its key to its value.
pub proof fn lemma_pairs_to_map_push(p: Seq<(Seq<char>, Seq<char>)>, k: Seq<char>, v: Seq<char>)
    ensures
        pairs_to_map(p.push((k, v))) == pairs_to_map(p).insert(k, v),
{
    assert(p.push((k, v)).drop_last() == p);
}

/// With distinct keys, the map binds as many keys as there are pairs.
pub proof fn lemma_pairs_to_map_len(p: Seq<(Seq<char>, Seq<char>)>)
    requires
        keys_distinct(p),
    ensures
        pairs_to_map(p).dom().finite(),
        pairs_to_map(p).len() == p.len(),
    decreases p.len(),
{
    if p.len() > 0 {
        let q = p.drop_last();
        assert(keys_distinct(q)) by {
            assert forall|a: int, b: int| 0 <= a < b < q.len() implies #[trigger] q[a].0
                != #[trigger] q[b].0 by {
                assert(q[a] == p[a] && q[b] == p[b]);
            }
        }
        lemma_pairs_to_map_len(q);
        lemma_pairs_to_map_dom(q, p.last().0);
        if pairs_to_map(q).contains_key(p.last().0) {
            let i = choose|i: int| 0 <= i < q.len() && #[trigger] q[i].0 == p.last().0;
            assert(p[i].0 == p[p.len() - 1].0);
        }
    }
}

/// The order of `String`'s `Ord`: lexicographic over UTF-8 bytes, which is
/// lexicographic over code points, a proper prefix coming first.
pub open spec fn text_lt(a: Seq<char>, b: Seq<char>) -> bool
    decreases a.len(),
{
    if a.len() == 0 {
        b.len() > 0
    } else if b.len() == 0 {
        false
    } else if a[0] != b[0] {
        (a[0] as int) < (b[0] as int)
    } else {
        text_lt(a.drop_first(), b.drop_first())
    }
}

/// No text comes before itself.
pub proof fn lemma_text_lt_irreflexive(a: Seq<char>)
    ensures
        !text_lt(a, a),
    decreases a.len(),
{
    if a.len() > 0 {
        lemma_text_lt_irreflexive(a.drop_first());
    }
}

/// Of two different texts, one comes before the other.
pub proof fn lemma_text_lt_total(a: Seq<char>, b: Seq<char>)
    requires
        a != b,
    ensures
        text_lt(a, b) || text_lt(b, a),
    decreases a.len(),
{
    if a.len() > 0 && b.len() > 0 && a[0] == b[0] {
        if a.drop_first() == b.drop_first() {
            assert(a =~= seq![a[0]] + a.drop_first());
            assert(b =~= seq![b[0]] + b.drop_first());
        }
        lemma_text_lt_total(a.drop_first(), b.drop_first());
    } else if a.len() > 0 && b.len() > 0 {
        assert((a[0] as int) != (b[0] as int));
    } else if a.len() == 0 && b.len() == 0 {
        assert(a =~= b);
    }
}

/// The order is transitive.
pub proof fn lemma_text_lt_transitive(a: Seq<char>, b: Seq<char>, c: Seq<char>)
    requires
        text_lt(a, b),
        text_lt(b, c),
    ensures
        text_lt(a, c),
    decreases a.len(),
{
    if a.len() > 0 && b.len() > 0 && c.len() > 0 && a[0] == b[0] && b[0] == c[0] {
        lemma_text_lt_transitive(a.drop_first(), b.drop_first(), c.drop_first());
    }
}

/// The keys of `p` increase strictly.
pub open spec fn keys_sorted(p: Seq<(Seq<char>, Seq<char>)>) -> bool {
    forall|i: int, j: int| 0 <= i < j < p.len() ==> text_lt(#[trigger] p[i].0, #[trigger] p[j].0)
}

/// Keys that increase strictly are distinct.
pub proof fn lemma_sorted_distinct(p: Seq<(Seq<char>, Seq<char>)>)
    requires
        keys_sorted(p),
    ensures
        keys_distinct(p),
{
    assert forall|i: int, j: int| 0 <= i < j < p.len() implies #[trigger] p[i].0
        != #[trigger] p[j].0 by {
        lemma_text_lt_irreflexive(p[i].0);
    }
}

/// Inserting a pair whose key is new, anywhere among pairs with distinct
/// keys, binds that key and keeps every other binding.
pub proof fn lemma_pairs_to_map_insert_at(
    p: Seq<(Seq<char>, Seq<char>)>,
    idx: int,
    k: Seq<char>,
    v: Seq<char>,
)
    requires
        0 <= idx <= p.len(),
        keys_distinct(p),
        forall|i: int| 0 <= i < p.len() ==> #[trigger] p[i].0 != k,
    ensures
        pairs_to_map(p.insert(idx, (k, v))) == pairs_to_map(p).insert(k, v),
{
    let q = p.insert(idx, (k, v));
    let m1 = pairs_to_map(q);
    let m2 = pairs_to_map(p).insert(k, v);
    assert forall|a: int, b: int| 0 <= a < b < q.len() implies #[trigger] q[a].0
        != #[trigger] q[b].0 by {
        if a < idx && b < idx {
            assert(q[a] == p[a] && q[b] == p[b]);
        } else if a < idx && b == idx {
            assert(q[a] == p[a]);
        } else if a < idx {
            assert(q[a] == p[a] && q[b] == p[b - 1]);
        } else if a == idx {
            assert(q[b] == p[b - 1]);
        } else {
            assert(q[a] == p[a - 1] && q[b] == p[b - 1]);
        }
    }
    assert forall|kk: Seq<char>| #[trigger] m1.contains_key(kk) == m2.contains_key(kk) by {
        lemma_pairs_to_map_dom(q, kk);
        lemma_pairs_to_map_dom(p, kk);
        if m1.contains_key(kk) && kk != k {
            let i = choose|i: int| 0 <= i < q.len() && #[trigger] q[i].0 == kk;
            if i < idx {
                assert(p[i].0 == kk);
            } else {
                assert(p[i - 1].0 == kk);
            }
        }
        if m2.contains_key(kk) {
            if kk == k {
                assert(q[idx].0 == kk);
            } else {
                let i = choose|i: int| 0 <= i < p.len() && #[trigger] p[i].0 == kk;
                if i < idx {
                    assert(q[i].0 == kk);
                } else {
                    assert(q[i + 1].0 == kk);
                }
            }
        }
    }
    assert forall|kk: Seq<char>| #[trigger] m1.contains_key(kk) implies m1[kk] == m2[kk] by {
        lemma_pairs_to_map_dom(q, kk);
        let i = choose|i: int| 0 <= i < q.len() && #[trigger] q[i].0 == kk;
        lemma_pairs_to_map_last(q, i);
        if i != idx {
            let j = if i < idx { i } else { i - 1 };
            assert(p[j] == q[i]);
            assert forall|x: int| j < x < p.len() implies #[trigger] p[x].0 != p[j].0 by {}
            lemma_pairs_to_map_last(p, j);
        }
    }
    assert(m1 =~= m2);
}

/// Whether `a` comes before `b` in the order of `String`'s `Ord`.
pub fn text_less(a: &String, b: &String) -> (r: bool)
    ensures
        r == text_lt(a@, b@),
{
    let sa = a.as_str();
    let sb = b.as_str();
    let la = sa.unicode_len();
    let lb = sb.unicode_len();
    let mut i: usize = 0;
    assert(a@.skip(0) =~= a@ && b@.skip(0) =~= b@);
    loop
        invariant
            i <= la,
            i <= lb,
            la == a@.len(),
            lb == b@.len(),
            sa@ == a@,
            sb@ == b@,
            text_lt(a@, b@) == text_lt(a@.skip(i as int), b@.skip(i as int)),
        decreases la - i,
    {
        if i == la {
            return i < lb;
        }
        if i == lb {
            return false;
        }
        let ca = sa.get_char(i);
        let cb = sb.get_char(i);
        assert(a@.skip(i as int)[0] == ca && b@.skip(i as int)[0] == cb);
        if ca != cb {
            return (ca as u32) < (cb as u32);
        }
        assert(a@.skip(i as int).drop_first() =~= a@.skip(i + 1));
        assert(b@.skip(i as int).drop_first() =~= b@.skip(i + 1));
        i = i + 1;
    }
}

/// A finite map from strings to strings.
#[derive(Debug)]
pub struct StringMap {
    entries: Vec<(String, String)>,
}

impl StringMap {
    /// The entries, in increasing key order.
    pub closed spec fn pairs(self) -> Seq<(Seq<char>, Seq<char>)> {
        self.entries@.map_values(|e: (String, String)| (e.0@, e.1@))
    }

    #[verifier::type_invariant]
    closed spec fn sorted_keys(self) -> bool {
        keys_sorted(self.pairs())
    }

    /// Creates an empty map.
    pub fn new() -> (m: StringMap)
        ensures
            m@ == Map::<Seq<char>, Seq<char>>::empty(),
            m.pairs() == Seq::<(Seq<char>, Seq<char>)>::empty(),
            keys_sorted(m.pairs()),
    {
        let m = StringMap { entries: Vec::new() };
        assert(m.pairs() =~= Seq::<(Seq<char>, Seq<char>)>::empty());
        m
    }

    /// The number of keys bound.
    pub fn len(&self) -> (n: usize)
        ensures
            n == self.pairs().len(),
            n == self@.len(),
    {
        proof {
            use_type_invariant(self);
            lemma_sorted_distinct(self.pairs());
            lemma_pairs_to_map_len(self.pairs());
        }
        self.entries.len()
    }

    /// The key and value of the entry at position `i`.
    pub fn entry(&self, i: usize) -> (e: (&String, &String))
        requires
            i < self.pairs().len(),
        ensures
            (e.0@, e.1@) == self.pairs()[i as int],
    {
        (&self.entries[i].0, &self.entries[i].1)
    }

    /// The position of the entry with key `key`, if any.
    fn position(&self, key: &String) -> (r: Option<usize>)
        ensures
            match r {
                Some(i) => i < self.pairs().len() && self.pairs()[i as int].0 == key@
                    && forall|j: int| i < j < self.pairs().len() ==> #[trigger] self.pairs()[j].0
                        != key@,
                None => forall|j: int| 0 <= j < self.pairs().len() ==> #[trigger] self.pairs()[j].0
                    != key@,
            },
    {
        let mut i: usize = self.entries.len();
        while i > 0
            invariant
                i <= self.entries.len(),
                self.pairs().len() == self.entries.len(),
                forall|j: int| i <= j < self.pairs().len() ==> #[trigger] self.pairs()[j].0 != key@,
            decreases i,
        {
            i = i - 1;
            if self.entries[i].0 == *key {
                return Some(i);
            }
        }
        None
    }

    /// Whether `key` is bound.
    pub fn contains_key(&self, key: &String) -> (b: bool)
        ensures
            b == self@.contains_key(key@),
    {
        let r = self.position(key);
        proof {
            lemma_pairs_to_map_dom(self.pairs(), key@);
        }
        r.is_some()
    }

    /// The value bound to `key`, if any.
    pub fn get(&self, key: &String) -> (r: Option<&String>)
        ensures
            match r {
                Some(v) => self@.contains_key(key@) && self@[key@] == v@,
                None => !self@.contains_key(key@),
            },
    {
        proof {
            lemma_pairs_to_map_dom(self.pairs(), key@);
        }
        match self.position(key) {
            Some(i) => {
                proof {
                    lemma_pairs_to_map_last(self.pairs(), i as int);
                }
                Some(&self.entries[i].1)
            },
            None => None,
        }
    }

    /// Binds `key` to `value`, replacing any value it had. The entries stay
    /// in increasing key order.
    pub fn insert(&mut self, key: String, value: String)
        ensures
            final(self)@ == old(self)@.insert(key@, value@),
            keys_sorted(final(self).pairs()),
    {
        proof {
            use_type_invariant(&*self);
            lemma_sorted_distinct(self.pairs());
        }
        let ghost p = self.pairs();
        let mut idx: usize = 0;
        while idx < self.entries.len() && text_less(&self.entries[idx].0, &key)
            invariant
                idx <= self.entries.len(),
                p == self.pairs(),
                p.len() == self.entries.len(),
                forall|j: int| 0 <= j < idx ==> text_lt(#[trigger] p[j].0, key@),
            decreases self.entries.len() - idx,
        {
            idx = idx + 1;
        }
        let replace = idx < self.entries.len() && self.entries[idx].0 == key;
        let mut entries: Vec<(String, String)> = Vec::new();
        std::mem::swap(&mut entries, &mut self.entries);
        if replace {
            entries.set(idx, (key, value));
            proof {
                let q = entries@.map_values(|e: (String, String)| (e.0@, e.1@));
                assert(q =~= p.update(idx as int, (p[idx as int].0, value@)));
                lemma_pairs_to_map_update(p, idx as int, value@);
                assert forall|a: int, b: int| 0 <= a < b < q.len() implies text_lt(
                    #[trigger] q[a].0,
                    #[trigger] q[b].0,
                ) by {
                    assert(q[a].0 == p[a].0 && q[b].0 == p[b].0);
                }
            }
        } else {
            proof {
                if idx < p.len() {
                    lemma_text_lt_total(p[idx as int].0, key@);
                }
                assert forall|j: int| 0 <= j < p.len() implies #[trigger] p[j].0 != key@ by {
                    if j < idx {
                        lemma_text_lt_irreflexive(key@);
                    } else {
                        if j > idx {
                            lemma_text_lt_transitive(key@, p[idx as int].0, p[j].0);
                        }
                        lemma_text_lt_irreflexive(key@);
                    }
                }
                lemma_pairs_to_map_insert_at(p, idx as int, key@, value@);
            }
            entries.insert(idx, (key, value));
            proof {
                let q = entries@.map_values(|e: (String, String)| (e.0@, e.1@));
                assert(q =~= p.insert(idx as int, (key@, value@)));
                assert forall|a: int, b: int| 0 <= a < b < q.len() implies text_lt(
                    #[trigger] q[a].0,
                    #[trigger] q[b].0,
                ) by {
                    if a < idx && b < idx {
                        assert(q[a] == p[a] && q[b] == p[b]);
                    } else if a < idx && b == idx {
                        assert(q[a] == p[a]);
                    } else if a < idx {
                        assert(q[a] == p[a] && q[b] == p[b - 1]);
                    } else if a == idx {
                        assert(q[b] == p[b - 1]);
                        if b - 1 > idx {
                            lemma_text_lt_transitive(key@, p[idx as int].0, p[b - 1].0);
                        }
                    } else {
                        assert(q[a] == p[a - 1] && q[b] == p[b - 1]);
                    }
                }
            }
        }
        self.entries = entries;
    }
}

impl Clone for StringMap {
    fn clone(&self) -> (m: StringMap)
        ensures
            m.pairs() == self.pairs(),
            m@ == self@,
            keys_sorted(m.pairs()),
    {
        proof {
            use_type_invariant(self);
        }
        let mut entries: Vec<(String, String)> = Vec::new();
        let mut i: usize = 0;
        while i < self.entries.len()
            invariant
                i <= self.entries.len(),
                entries@.map_values(|e: (String, String)| (e.0@, e.1@)) =~= self.pairs().take(
                    i as int,
                ),
            decreases self.entries.len() - i,
        {
            let k = self.entries[i].0.clone();
            let v = self.entries[i].1.clone();
            entries.push((k, v));
            i = i + 1;
            assert(self.pairs().take(i as int) =~= self.pairs().take((i - 1) as int).push(
                self.pairs()[i - 1],
            ));
        }
        assert(self.pairs().take(i as int) =~= self.pairs());
        StringMap { entries }
    }
}

impl View for StringMap {
    type V = Map<Seq<char>, Seq<char>>;

    open spec fn view(&self) -> Map<Seq<char>, Seq<char>> {
        pairs_to_map(self.pairs())
    }
}

/// Reading a key just written gives the written value, and every other key
/// keeps its binding.
pub proof fn law_insert_then_get(before: StringMap, after: StringMap, k: Seq<char>, v: Seq<char>)
    requires
        after@ == before@.insert(k, v),
    ensures
        after@.contains_key(k),
        after@[k] == v,
        forall|j: Seq<char>|
            j != k ==> (after@.contains_key(j) == before@.contains_key(j) && (before@.contains_key(j)
                ==> after@[j] == before@[j])),
{
}

} // verus!
