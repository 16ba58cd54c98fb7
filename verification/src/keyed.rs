//! Lists of (name, value) pairs in which no name occurs twice, and the maps
//! they stand for.
use vstd::prelude::*;

verus! {

/// A list of (name, value) pairs in which no name occurs twice.
pub open spec fn names_unique<V>(p: Seq<(Seq<char>, V)>) -> bool {
    forall|i: int, j: int| 0 <= i < p.len() && 0 <= j < p.len() && i != j ==> #[trigger] p[i].0 != #[trigger] p[j].0
}

/// The name `k` occurs in the list `p`.
pub open spec fn has_name<V>(p: Seq<(Seq<char>, V)>, k: Seq<char>) -> bool {
    exists|i: int| 0 <= i < p.len() && #[trigger] p[i].0 == k
}

/// The map that a list of (name, value) pairs stands for.
pub open spec fn table_of<V>(p: Seq<(Seq<char>, V)>) -> Map<Seq<char>, V> {
    Map::new(
        |k: Seq<char>| has_name(p, k),
        |k: Seq<char>| p[choose|i: int| 0 <= i < p.len() && #[trigger] p[i].0 == k].1,
    )
}

pub proof fn lemma_table_lookup<V>(p: Seq<(Seq<char>, V)>, i: int)
    requires
        names_unique(p),
        0 <= i < p.len(),
    ensures
        table_of(p).contains_key(p[i].0),
        table_of(p)[p[i].0] == p[i].1,
{
    let k = p[i].0;
    assert(has_name(p, k));
    let j = choose|j: int| 0 <= j < p.len() && #[trigger] p[j].0 == k;
    assert(j == i);
}

pub proof fn lemma_table_update<V>(p: Seq<(Seq<char>, V)>, i: int, v: V)
    requires
        names_unique(p),
        0 <= i < p.len(),
    ensures
        names_unique(p.update(i, (p[i].0, v))),
        table_of(p.update(i, (p[i].0, v))) == table_of(p).insert(p[i].0, v),
{
    let q = p.update(i, (p[i].0, v));
    assert forall|a: int, b: int| 0 <= a < q.len() && 0 <= b < q.len() && a != b implies #[trigger] q[a].0 != #[trigger] q[b].0 by {
        assert(q[a].0 == p[a].0);
        assert(q[b].0 == p[b].0);
    }
    let m = table_of(p).insert(p[i].0, v);
    assert forall|k: Seq<char>| #[trigger] table_of(q).contains_key(k) <==> m.contains_key(k) by {
        if has_name(q, k) {
            let j = choose|j: int| 0 <= j < q.len() && #[trigger] q[j].0 == k;
            assert(p[j].0 == k);
        }
        if has_name(p, k) {
            let j = choose|j: int| 0 <= j < p.len() && #[trigger] p[j].0 == k;
            assert(q[j].0 == k);
        }
        if k == p[i].0 {
            assert(q[i].0 == k);
        }
    }
    assert forall|k: Seq<char>| #[trigger] table_of(q).contains_key(k) implies table_of(q)[k] == m[k] by {
        let j = choose|j: int| 0 <= j < q.len() && #[trigger] q[j].0 == k;
        lemma_table_lookup(q, j);
        if j != i {
            assert(p[j].0 == k);
            lemma_table_lookup(p, j);
            assert(k != p[i].0);
        }
    }
    assert(table_of(q) =~= m);
}

pub proof fn lemma_table_push<V>(p: Seq<(Seq<char>, V)>, k: Seq<char>, v: V)
    requires
        names_unique(p),
        !has_name(p, k),
    ensures
        names_unique(p.push((k, v))),
        table_of(p.push((k, v))) == table_of(p).insert(k, v),
{
    let q = p.push((k, v));
    assert forall|a: int, b: int| 0 <= a < q.len() && 0 <= b < q.len() && a != b implies #[trigger] q[a].0 != #[trigger] q[b].0 by {
        if a < p.len() && b < p.len() {
            assert(q[a].0 == p[a].0);
            assert(q[b].0 == p[b].0);
        } else if a < p.len() {
            assert(q[a].0 == p[a].0);
        } else {
            assert(q[b].0 == p[b].0);
        }
    }
    let m = table_of(p).insert(k, v);
    assert forall|x: Seq<char>| #[trigger] table_of(q).contains_key(x) <==> m.contains_key(x) by {
        if has_name(q, x) {
            let j = choose|j: int| 0 <= j < q.len() && #[trigger] q[j].0 == x;
            if j < p.len() {
                assert(p[j].0 == x);
            }
        }
        if has_name(p, x) {
            let j = choose|j: int| 0 <= j < p.len() && #[trigger] p[j].0 == x;
            assert(q[j].0 == x);
        }
        if x == k {
            assert(q[p.len() as int].0 == x);
        }
    }
    assert forall|x: Seq<char>| #[trigger] table_of(q).contains_key(x) implies table_of(q)[x] == m[x] by {
        let j = choose|j: int| 0 <= j < q.len() && #[trigger] q[j].0 == x;
        lemma_table_lookup(q, j);
        if j < p.len() {
            assert(p[j].0 == x);
            lemma_table_lookup(p, j);
        }
    }
    assert(table_of(q) =~= m);
}

} // verus!
