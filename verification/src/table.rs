//! A table keyed by text, kept in the order of its keys.

use crate::text;
use vstd::prelude::*;

verus! {

/// Whether `a` comes before `b` in the order of strings: by the first character
/// in which they differ, the shorter first where one begins the other.
pub open spec fn before(a: Seq<char>, b: Seq<char>) -> bool
    decreases a.len(),
{
    if b.len() == 0 {
        false
    } else if a.len() == 0 {
        true
    } else if a[0] != b[0] {
        (a[0] as int) < (b[0] as int)
    } else {
        before(a.skip(1), b.skip(1))
    }
}

/// Nothing comes before itself.
pub proof fn lemma_before_irreflexive(a: Seq<char>)
    ensures
        !before(a, a),
    decreases a.len(),
{
    if a.len() > 0 {
        lemma_before_irreflexive(a.skip(1));
    }
}

/// The order is transitive.
pub proof fn lemma_before_transitive(a: Seq<char>, b: Seq<char>, c: Seq<char>)
    requires
        before(a, b),
        before(b, c),
    ensures
        before(a, c),
    decreases a.len(),
{
    if a.len() > 0 && a[0] == b[0] && b[0] == c[0] {
        lemma_before_transitive(a.skip(1), b.skip(1), c.skip(1));
    }
}

/// Of two different texts one comes before the other.
pub proof fn lemma_before_total(a: Seq<char>, b: Seq<char>)
    ensures
        a == b || before(a, b) || before(b, a),
    decreases a.len(),
{
    if a.len() > 0 && b.len() > 0 && a[0] == b[0] {
        lemma_before_total(a.skip(1), b.skip(1));
        if a.skip(1) == b.skip(1) {
            assert(a =~= seq![a[0]] + a.skip(1));
            assert(b =~= seq![b[0]] + b.skip(1));
        }
    } else if a.len() == 0 && b.len() == 0 {
        assert(a =~= b);
    }
}

/// Whether `a` comes before `b` in the order of strings.
fn is_before(a: &str, b: &str) -> (r: bool)
    ensures
        r == before(a@, b@),
{
    let x = text::chars_of(a);
    let y = text::chars_of(b);
    let mut i: usize = 0;
    assert(a@.skip(0) =~= a@);
    assert(b@.skip(0) =~= b@);
    loop
        invariant
            x@ == a@,
            y@ == b@,
            i <= x.len(),
            i <= y.len(),
            before(a@, b@) == before(a@.skip(i as int), b@.skip(i as int)),
        decreases x.len() - i,
    {
        if i == y.len() {
            return false;
        }
        if i == x.len() {
            return true;
        }
        let p: char = x[i];
        let q: char = y[i];
        if p != q {
            return text::code(p) < text::code(q);
        }
        assert(a@.skip(i as int).skip(1) =~= a@.skip(i + 1));
        assert(b@.skip(i as int).skip(1) =~= b@.skip(i + 1));
        i += 1;
    }
}

/// A table from texts to values, in the order of its keys.
#[derive(Debug)]
pub struct TextTable<V> {
    entries: Vec<(String, V)>,
}

/// Whether the keys of the rows ascend.
pub open spec fn ascending<V>(rows: Seq<(Seq<char>, V)>) -> bool {
    forall|i: int, j: int| 0 <= i < j < rows.len() ==> before(#[trigger] rows[i].0, #[trigger] rows[j].0)
}

/// The table that the rows write down.
pub open spec fn rows_map<V>(rows: Seq<(Seq<char>, V)>) -> Map<Seq<char>, V>
    decreases rows.len(),
{
    if rows.len() == 0 {
        Map::empty()
    } else {
        rows_map(rows.drop_last()).insert(rows.last().0, rows.last().1)
    }
}

spec fn rows_of<V>(entries: Seq<(String, V)>) -> Seq<(Seq<char>, V)> {
    entries.map_values(|e: (String, V)| (e.0@, e.1))
}

proof fn lemma_key_present<V>(rows: Seq<(Seq<char>, V)>, i: int)
    requires
        ascending(rows),
        0 <= i < rows.len(),
    ensures
        rows_map(rows).contains_key(rows[i].0),
        rows_map(rows)[rows[i].0] == rows[i].1,
    decreases rows.len(),
{
    let init = rows.drop_last();
    if i < rows.len() - 1 {
        assert(init[i] == rows[i]);
        assert(before(rows[i].0, rows[rows.len() - 1].0));
        lemma_before_irreflexive(rows[i].0);
        lemma_key_present(init, i);
    }
}

proof fn lemma_key_absent<V>(rows: Seq<(Seq<char>, V)>, k: Seq<char>)
    requires
        forall|i: int| 0 <= i < rows.len() ==> (#[trigger] rows[i]).0 != k,
    ensures
        !rows_map(rows).contains_key(k),
    decreases rows.len(),
{
    if rows.len() > 0 {
        let init = rows.drop_last();
        assert forall|i: int| 0 <= i < init.len() implies (#[trigger] init[i]).0 != k by {
            assert(init[i] == rows[i]);
        }
        lemma_key_absent(init, k);
        assert(rows[rows.len() - 1].0 != k);
    }
}

/// What a key maps to, found among the rows.
proof fn lemma_lookup<V>(rows: Seq<(Seq<char>, V)>, k: Seq<char>)
    requires
        ascending(rows),
    ensures
        rows_map(rows).contains_key(k) <==> exists|i: int|
            0 <= i < rows.len() && (#[trigger] rows[i]).0 == k,
        forall|i: int|
            0 <= i < rows.len() && (#[trigger] rows[i]).0 == k ==> rows_map(rows)[k] == rows[i].1,
{
    if exists|i: int| 0 <= i < rows.len() && (#[trigger] rows[i]).0 == k {
        assert forall|i: int| 0 <= i < rows.len() && (#[trigger] rows[i]).0 == k implies rows_map(
            rows,
        )[k] == rows[i].1 && rows_map(rows).contains_key(k) by {
            lemma_key_present(rows, i);
        }
    } else {
        lemma_key_absent(rows, k);
    }
}

/// Two ascending rows that hold the same pairs write down the same table.
proof fn lemma_same_pairs<V>(a: Map<Seq<char>, V>, rows: Seq<(Seq<char>, V)>)
    requires
        ascending(rows),
        forall|k: Seq<char>| #[trigger] a.contains_key(k) <==> exists|i: int|
            0 <= i < rows.len() && (#[trigger] rows[i]).0 == k,
        forall|i: int| 0 <= i < rows.len() ==> a[(#[trigger] rows[i]).0] == rows[i].1,
    ensures
        a == rows_map(rows),
{
    let m = rows_map(rows);
    assert forall|k: Seq<char>| #[trigger] a.contains_key(k) == m.contains_key(k) by {
        lemma_lookup(rows, k);
    }
    assert forall|k: Seq<char>| #[trigger] a.contains_key(k) implies a[k] == m[k] by {
        lemma_lookup(rows, k);
    }
    assert(a.dom() =~= m.dom());
    assert(a =~= m);
}

impl<V> View for TextTable<V> {
    type V = Map<Seq<char>, V>;

    closed spec fn view(&self) -> Map<Seq<char>, V> {
        rows_map(rows_of(self.entries@))
    }
}

impl<V> TextTable<V> {
    #[verifier::type_invariant]
    spec fn well_formed(self) -> bool {
        ascending(rows_of(self.entries@))
    }

    /// The pairs of the table, in the order of the keys.
    pub closed spec fn rows(self) -> Seq<(Seq<char>, V)> {
        rows_of(self.entries@)
    }

    /// The empty table.
    pub fn new() -> (r: TextTable<V>)
        ensures
            r@ == Map::<Seq<char>, V>::empty(),
            r.rows().len() == 0,
    {
        TextTable { entries: Vec::new() }
    }

    /// The number of keys.
    pub fn len(&self) -> (r: usize)
        ensures
            r == self.rows().len(),
            ascending(self.rows()),
            self@ == rows_map(self.rows()),
    {
        proof {
            use_type_invariant(self);
        }
        self.entries.len()
    }

    /// The key in the given row.
    pub fn key(&self, i: usize) -> (r: &str)
        requires
            i < self.rows().len(),
        ensures
            r@ == self.rows()[i as int].0,
    {
        self.entries[i].0.as_str()
    }

    /// The value in the given row.
    pub fn value(&self, i: usize) -> (r: &V)
        requires
            i < self.rows().len(),
        ensures
            *r == self.rows()[i as int].1,
    {
        &self.entries[i].1
    }

    /// The value under `key`.
    pub fn get(&self, key: &str) -> (r: Option<&V>)
        ensures
            match r {
                Some(v) => self@.contains_key(key@) && *v == self@[key@],
                None => !self@.contains_key(key@),
            },
    {
        proof {
            use_type_invariant(self);
            lemma_lookup(self.rows(), key@);
        }
        let mut i: usize = 0;
        while i < self.entries.len()
            invariant
                i <= self.entries.len(),
                forall|j: int| 0 <= j < i ==> (#[trigger] self.rows()[j]).0 != key@,
                self@.contains_key(key@) <==> exists|j: int|
                    0 <= j < self.rows().len() && (#[trigger] self.rows()[j]).0 == key@,
                forall|j: int|
                    0 <= j < self.rows().len() && (#[trigger] self.rows()[j]).0 == key@
                        ==> self@[key@] == self.rows()[j].1,
            decreases self.entries.len() - i,
        {
            assert(self.rows()[i as int] == (self.entries@[i as int].0@, self.entries@[i as int].1));
            if text::same(self.entries[i].0.as_str(), key) {
                return Some(&self.entries[i].1);
            }
            i += 1;
        }
        None
    }

    /// Puts `value` under `key`, in place of what was there.
    pub fn insert(&mut self, key: String, value: V)
        ensures
            final(self)@ == old(self)@.insert(key@, value),
    {
        proof {
            use_type_invariant(&*self);
        }
        let mut entries: Vec<(String, V)> = Vec::new();
        std::mem::swap(&mut entries, &mut self.entries);
        let ghost rows = rows_of(entries@);
        let ghost k = key@;
        let mut i: usize = 0;
        while i < entries.len() && is_before(entries[i].0.as_str(), key.as_str())
            invariant
                i <= entries.len(),
                rows == rows_of(entries@),
                forall|j: int| 0 <= j < i ==> before((#[trigger] rows[j]).0, key@),
            decreases entries.len() - i,
        {
            assert(rows[i as int] == (entries@[i as int].0@, entries@[i as int].1));
            i += 1;
        }
        let present: bool = i < entries.len() && text::same(entries[i].0.as_str(), key.as_str());
        proof {
            assert forall|j: int| 0 <= j < i implies (#[trigger] rows[j]).0 != k by {
                lemma_before_irreflexive(k);
            }
            if i < rows.len() {
                assert(rows[i as int].0 == entries@[i as int].0@);
                lemma_before_total(rows[i as int].0, k);
            }
            assert forall|j: int| i < j < rows.len() implies before(k, (#[trigger] rows[j]).0) by {
                assert(before(rows[i as int].0, rows[j].0));
                if rows[i as int].0 != k {
                    lemma_before_transitive(k, rows[i as int].0, rows[j].0);
                }
            }
            lemma_before_irreflexive(k);
            assert forall|q: Seq<char>| rows_map(rows).contains_key(q) <==> exists|j: int|
                0 <= j < rows.len() && (#[trigger] rows[j]).0 == q by {
                lemma_lookup(rows, q);
            }
            assert forall|j: int| 0 <= j < rows.len() implies rows_map(rows)[(
            #[trigger] rows[j]).0] == rows[j].1 by {
                lemma_lookup(rows, rows[j].0);
            }
        }
        if present {
            let removed = entries.remove(i);
        }
        entries.insert(i, (key, value));
        proof {
            let next = rows_of(entries@);
            let m = rows_map(rows).insert(k, value);
            if present {
                assert(next =~= rows.update(i as int, (k, value)));
                assert(ascending(next));
                assert forall|q: Seq<char>| #[trigger] m.contains_key(q) <==> exists|j: int|
                    0 <= j < next.len() && (#[trigger] next[j]).0 == q by {
                    if m.contains_key(q) {
                        if q == k {
                            assert(next[i as int].0 == q);
                        } else {
                            let j = choose|j: int| 0 <= j < rows.len() && (#[trigger] rows[j]).0 == q;
                            assert(next[j].0 == q);
                        }
                    }
                    if exists|j: int| 0 <= j < next.len() && (#[trigger] next[j]).0 == q {
                        let j = choose|j: int| 0 <= j < next.len() && (#[trigger] next[j]).0 == q;
                        if q != k {
                            assert(rows[j].0 == q);
                        }
                    }
                }
                assert forall|j: int| 0 <= j < next.len() implies m[(#[trigger] next[j]).0]
                    == next[j].1 by {
                    if j != i {
                        assert(rows[j] == next[j]);
                    }
                }
            } else {
                assert(next =~= rows.insert(i as int, (k, value)));
                assert(ascending(next));
                assert forall|q: Seq<char>| #[trigger] m.contains_key(q) <==> exists|j: int|
                    0 <= j < next.len() && (#[trigger] next[j]).0 == q by {
                    if m.contains_key(q) {
                        if q == k {
                            assert(next[i as int].0 == q);
                        } else {
                            let j = choose|j: int| 0 <= j < rows.len() && (#[trigger] rows[j]).0 == q;
                            if j < i {
                                assert(next[j].0 == q);
                            } else {
                                assert(next[j + 1].0 == q);
                            }
                        }
                    }
                    if exists|j: int| 0 <= j < next.len() && (#[trigger] next[j]).0 == q {
                        let j = choose|j: int| 0 <= j < next.len() && (#[trigger] next[j]).0 == q;
                        if j < i {
                            assert(rows[j].0 == q);
                        } else if j > i {
                            assert(rows[j - 1].0 == q);
                        }
                    }
                }
                assert forall|j: int| 0 <= j < next.len() implies m[(#[trigger] next[j]).0]
                    == next[j].1 by {
                    if j < i {
                        assert(rows[j] == next[j]);
                    } else if j > i {
                        assert(rows[j - 1] == next[j]);
                    }
                }
            }
            lemma_same_pairs(m, next);
        }
        self.entries = entries;
    }
}

} // verus!
