use vstd::prelude::*;

verus! {

/// `v` holds each key at most once, and as a map from key text to value it is `m`.
pub open spec fn table_wf<V>(v: Seq<(String, V)>, m: Map<Seq<char>, V>) -> bool {
    &&& forall|i: int, j: int|
        0 <= i < v.len() && 0 <= j < v.len() && i != j ==> #[trigger] v[i].0@ != #[trigger] v[j].0@
    &&& forall|i: int| 0 <= i < v.len() ==> m.contains_key(#[trigger] v[i].0@) && m[v[i].0@] == v[i].1
    &&& forall|k: Seq<char>|
        #[trigger] m.contains_key(k) ==> exists|i: int| 0 <= i < v.len() && v[i].0@ == k
}

/// Position of the entry whose key reads as `k`, if there is one.
pub fn find_key<V>(v: &Vec<(String, V)>, k: &String) -> (r: Option<usize>)
    ensures
        match r {
            Some(i) => i < v@.len() && v@[i as int].0@ == k@,
            None => forall|i: int| 0 <= i < v@.len() ==> v@[i].0@ != k@,
        },
{
    let mut i: usize = 0;
    while i < v.len()
        invariant
            i <= v@.len(),
            forall|j: int| 0 <= j < i ==> v@[j].0@ != k@,
        decreases v@.len() - i,
    {
        if v[i].0 == *k {
            return Some(i);
        }
        i = i + 1;
    }
    None
}

pub proof fn lemma_find_absent<V>(v: Seq<(String, V)>, m: Map<Seq<char>, V>, k: Seq<char>)
    requires
        table_wf(v, m),
        forall|i: int| 0 <= i < v.len() ==> v[i].0@ != k,
    ensures
        !m.contains_key(k),
{
}

pub proof fn lemma_table_push<V>(v: Seq<(String, V)>, m: Map<Seq<char>, V>, k: String, x: V)
    requires
        table_wf(v, m),
        !m.contains_key(k@),
    ensures
        table_wf(v.push((k, x)), m.insert(k@, x)),
{
    let w = v.push((k, x));
    let n = m.insert(k@, x);
    assert forall|key: Seq<char>| #[trigger] n.contains_key(key) implies exists|i: int|
        0 <= i < w.len() && w[i].0@ == key by {
        if key == k@ {
            assert(w[v.len() as int].0@ == key);
        } else {
            let i = choose|i: int| 0 <= i < v.len() && v[i].0@ == key;
            assert(w[i].0@ == key);
        }
    }
}

pub proof fn lemma_table_set<V>(v: Seq<(String, V)>, m: Map<Seq<char>, V>, i: int, x: V)
    requires
        table_wf(v, m),
        0 <= i < v.len(),
    ensures
        table_wf(v.update(i, (v[i].0, x)), m.insert(v[i].0@, x)),
{
    let w = v.update(i, (v[i].0, x));
    let n = m.insert(v[i].0@, x);
    assert forall|key: Seq<char>| #[trigger] n.contains_key(key) implies exists|j: int|
        0 <= j < w.len() && w[j].0@ == key by {
        if key == v[i].0@ {
            assert(w[i].0@ == key);
        } else {
            let j = choose|j: int| 0 <= j < v.len() && v[j].0@ == key;
            assert(w[j].0@ == key);
        }
    }
}

pub proof fn lemma_table_remove<V>(v: Seq<(String, V)>, m: Map<Seq<char>, V>, i: int)
    requires
        table_wf(v, m),
        0 <= i < v.len(),
    ensures
        table_wf(v.remove(i), m.remove(v[i].0@)),
{
    let w = v.remove(i);
    let n = m.remove(v[i].0@);
    assert forall|a: int| 0 <= a < w.len() implies #[trigger] w[a] == (if a < i {
        v[a]
    } else {
        v[a + 1]
    }) by {}
    assert forall|a: int, b: int|
        0 <= a < w.len() && 0 <= b < w.len() && a != b implies #[trigger] w[a].0@
        != #[trigger] w[b].0@ by {
        let a1 = if a < i { a } else { a + 1 };
        let b1 = if b < i { b } else { b + 1 };
        assert(v[a1].0@ != v[b1].0@);
    }
    assert forall|a: int| 0 <= a < w.len() implies n.contains_key(#[trigger] w[a].0@) && n[w[a].0@]
        == w[a].1 by {
        let a1 = if a < i { a } else { a + 1 };
        assert(v[a1].0@ != v[i].0@);
    }
    assert forall|key: Seq<char>| #[trigger] n.contains_key(key) implies exists|j: int|
        0 <= j < w.len() && w[j].0@ == key by {
        let j = choose|j: int| 0 <= j < v.len() && v[j].0@ == key;
        if j < i {
            assert(w[j].0@ == key);
        } else {
            assert(j != i);
            assert(w[j - 1].0@ == key);
        }
    }
}

} // verus!
