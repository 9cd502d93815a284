use vstd::prelude::*;

use crate::go::{
    alias_of, decl_entries, decl_table, name_entries, spec_entries, DeclGroup, DeclRef, GoImport,
};
use crate::table::map_of_entries;

verus! {

/// Every key of an entry sequence is a key of the mapping it builds.
proof fn lemma_entries_dom<V>(es: Seq<(Seq<char>, V)>, j: int)
    requires
        0 <= j < es.len(),
    ensures
        map_of_entries(es).contains_key(es[j].0),
    decreases es.len(),
{
    if j < es.len() - 1 {
        lemma_entries_dom(es.drop_last(), j);
    }
}

/// When every entry of the suffix `b` carries `d`, each key of `b` maps to `d`.
proof fn lemma_suffix_wins<V>(a: Seq<(Seq<char>, V)>, b: Seq<(Seq<char>, V)>, d: V, j: int)
    requires
        0 <= j < b.len(),
        forall|i: int| 0 <= i < b.len() ==> b[i].1 == d,
    ensures
        map_of_entries(a + b).contains_key(b[j].0),
        map_of_entries(a + b)[b[j].0] == d,
    decreases b.len(),
{
    assert((a + b).drop_last() =~= a + b.drop_last());
    if j < b.len() - 1 {
        lemma_suffix_wins(a, b.drop_last(), d, j);
    }
}

/// An index of `spec_entries(specs, g)` whose key is the `k`th name of spec `s`.
proof fn lemma_spec_entry(specs: Seq<Vec<String>>, g: int, s: int, k: int) -> (j: int)
    requires
        0 <= s < specs.len(),
        0 <= k < specs[s]@.len(),
    ensures
        0 <= j < spec_entries(specs, g).len(),
        spec_entries(specs, g)[j].0 == specs[s]@[k]@,
    decreases specs.len(),
{
    let prev = spec_entries(specs.drop_last(), g);
    if s == specs.len() - 1 {
        let j = prev.len() + k;
        assert(spec_entries(specs, g)[j] == name_entries(specs.last()@, g, s)[k]);
        j
    } else {
        lemma_spec_entry(specs.drop_last(), g, s, k)
    }
}

/// An index of `decl_entries(decls)` whose key is name `k` of spec `s` of group `g`.
proof fn lemma_decl_entry(decls: Seq<DeclGroup>, g: int, s: int, k: int) -> (j: int)
    requires
        0 <= g < decls.len(),
        0 <= s < decls[g].spec_names@.len(),
        0 <= k < decls[g].spec_names@[s]@.len(),
    ensures
        0 <= j < decl_entries(decls).len(),
        decl_entries(decls)[j].0 == decls[g].spec_names@[s]@[k]@,
    decreases decls.len(),
{
    let prev = decl_entries(decls.drop_last());
    if g == decls.len() - 1 {
        let i = lemma_spec_entry(decls.last().spec_names@, g, s, k);
        prev.len() + i
    } else {
        lemma_decl_entry(decls.drop_last(), g, s, k)
    }
}

/// Flattening is complete: every name declared by any spec of any declaration
/// group has its own entry in the declaration table.
pub proof fn law_every_declared_name_is_indexed(decls: Seq<DeclGroup>, g: int, s: int, k: int)
    requires
        0 <= g < decls.len(),
        0 <= s < decls[g].spec_names@.len(),
        0 <= k < decls[g].spec_names@[s]@.len(),
    ensures
        decl_table(decls).contains_key(decls[g].spec_names@[s]@[k]@),
{
    let j = lemma_decl_entry(decls, g, s, k);
    lemma_entries_dom(decl_entries(decls), j);
}

/// Last write wins: a name declared by the last spec of the last declaration
/// group maps to that group narrowed to that spec, whatever earlier
/// declarations used the same name.
pub proof fn law_later_declaration_wins(decls: Seq<DeclGroup>, g: DeclGroup, k: int)
    requires
        g.spec_names@.len() > 0,
        0 <= k < g.spec_names@.last()@.len(),
    ensures
        decl_table(decls.push(g)).contains_key(g.spec_names@.last()@[k]@),
        decl_table(decls.push(g))[g.spec_names@.last()@[k]@] == (DeclRef {
            group: decls.len() as usize,
            spec: (g.spec_names@.len() - 1) as usize,
        }),
{
    let all = decls.push(g);
    let specs = g.spec_names@;
    let gi = decls.len() as int;
    let d = DeclRef { group: gi as usize, spec: (specs.len() - 1) as usize };
    let a = decl_entries(decls);
    let b = spec_entries(specs.drop_last(), gi);
    let c = name_entries(specs.last()@, gi, specs.len() - 1);
    assert(all.drop_last() =~= decls);
    assert(decl_entries(all) == a + (b + c));
    assert(a + (b + c) =~= (a + b) + c);
    assert(c[k].0 == specs.last()@[k]@);
    lemma_suffix_wins(a + b, c, d, k);
}

/// An explicit alias is always the import's alias, whatever its path.
pub proof fn law_explicit_alias_wins(i: GoImport)
    requires
        i.name is Some,
    ensures
        alias_of(i) == i.name->0@,
{
}

} // verus!
