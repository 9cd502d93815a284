use vstd::prelude::*;

verus! {

/// No two entries of `t` share a key.
pub open spec fn keys_distinct<V>(t: Seq<(String, V)>) -> bool {
    forall|i: int, j: int|
        0 <= i < t.len() && 0 <= j < t.len() && i != j ==> t[i].0@ != t[j].0@
}

/// The list of entries `t` holds exactly the mapping `m`, one entry per key.
pub open spec fn represents<V>(t: Seq<(String, V)>, m: Map<Seq<char>, V>) -> bool {
    &&& keys_distinct(t)
    &&& forall|i: int|
        0 <= i < t.len() ==> #[trigger] m.contains_key(t[i].0@) && m[t[i].0@] == t[i].1
    &&& forall|k: Seq<char>|
        #[trigger] m.contains_key(k) ==> exists|i: int| 0 <= i < t.len() && t[i].0@ == k
}

/// The mapping obtained by inserting `es` in order, later entries overwriting earlier ones.
pub open spec fn map_of_entries<V>(es: Seq<(Seq<char>, V)>) -> Map<Seq<char>, V>
    decreases es.len(),
{
    if es.len() == 0 {
        Map::empty()
    } else {
        map_of_entries(es.drop_last()).insert(es.last().0, es.last().1)
    }
}

/// Sets the value of key `k` to `v`, replacing an existing entry or adding a new one.
pub(crate) fn insert_entry<V>(t: &mut Vec<(String, V)>, k: String, v: V, Ghost(m): Ghost<Map<Seq<char>, V>>)
    requires
        represents(old(t)@, m),
    ensures
        represents(final(t)@, m.insert(k@, v)),
{
    let mut i: usize = 0;
    while i < t.len()
        invariant
            0 <= i <= t.len(),
            t@ == old(t)@,
            represents(t@, m),
            forall|j: int| 0 <= j < i ==> t@[j].0@ != k@,
        decreases t.len() - i,
    {
        if t[i].0 == k {
            let ghost before = t@;
            t.set(i, (k, v));
            proof {
                let m2 = m.insert(k@, v);
                assert forall|k2: Seq<char>| #[trigger] m2.contains_key(k2) implies exists|j: int|
                    0 <= j < t@.len() && t@[j].0@ == k2 by {
                    if k2 != k@ {
                        let j = choose|j: int| 0 <= j < before.len() && before[j].0@ == k2;
                        assert(t@[j].0@ == k2);
                    } else {
                        assert(t@[i as int].0@ == k2);
                    }
                }
            }
            return;
        }
        i += 1;
    }
    let ghost before = t@;
    t.push((k, v));
    proof {
        let m2 = m.insert(k@, v);
        assert forall|k2: Seq<char>| #[trigger] m2.contains_key(k2) implies exists|j: int|
            0 <= j < t@.len() && t@[j].0@ == k2 by {
            if k2 != k@ {
                let j = choose|j: int| 0 <= j < before.len() && before[j].0@ == k2;
                assert(t@[j].0@ == k2);
            } else {
                assert(t@[before.len() as int].0@ == k2);
            }
        }
        assert forall|a: int| 0 <= a < t@.len() implies #[trigger] m2.contains_key(t@[a].0@)
            && m2[t@[a].0@] == t@[a].1 by {
            if a < before.len() {
                assert(t@[a] == before[a]);
            }
        }
        assert forall|a: int, b: int|
            0 <= a < t@.len() && 0 <= b < t@.len() && a != b implies t@[a].0@ != t@[b].0@ by {
            if a < before.len() {
                assert(t@[a] == before[a]);
            }
            if b < before.len() {
                assert(t@[b] == before[b]);
            }
        }
    }
}

/// Finds the value stored under key `k`, if any.
pub(crate) fn find_entry<V: Copy>(t: &Vec<(String, V)>, k: &String) -> (r: Option<V>)
    requires
        keys_distinct(t@),
    ensures
        r is None <==> forall|i: int| 0 <= i < t@.len() ==> t@[i].0@ != k@,
        r matches Some(v) ==> exists|i: int| 0 <= i < t@.len() && t@[i].0@ == k@ && t@[i].1 == v,
{
    let mut i: usize = 0;
    while i < t.len()
        invariant
            0 <= i <= t.len(),
            forall|j: int| 0 <= j < i ==> t@[j].0@ != k@,
        decreases t.len() - i,
    {
        if t[i].0 == *k {
            return Some(t[i].1);
        }
        i += 1;
    }
    None
}

} // verus!
