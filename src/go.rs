use std::marker::PhantomData;
use vstd::prelude::*;

use crate::table::{find_entry, insert_entry, keys_distinct, map_of_entries, represents};

verus! {

/// A symbol name declared in a Go source file.
#[derive(Debug, Clone, PartialEq, Eq, PartialOrd, Ord, Hash)]
pub struct GoSymbol(pub String);

impl GoSymbol {
    /// Wraps a symbol name.
    pub fn new(name: String) -> (r: GoSymbol)
        ensures
            r.0@ == name@,
    {
        GoSymbol(name)
    }
}

/// A path together with the name of a symbol declared in that file.
#[derive(Debug, Clone, PartialEq, Eq, PartialOrd, Ord, Hash)]
pub struct GoSymbolId<P> {
    pub path: P,
    pub symbol: GoSymbol,
}

impl<P> GoSymbolId<P> {
    /// Builds a symbol identifier from its two parts.
    pub fn new(path: P, symbol: GoSymbol) -> (r: GoSymbolId<P>)
        ensures
            r.path == path,
            r.symbol == symbol,
    {
        GoSymbolId { path, symbol }
    }
}

/// One import clause: an optional explicit alias and the imported path.
#[derive(Debug, Clone)]
pub struct GoImport {
    pub name: Option<String>,
    pub path: String,
}

/// What a declaration group introduces.
#[derive(Debug, Clone, Copy, PartialEq, Eq)]
pub enum DeclKind {
    Function,
    Type,
    Const,
    Var,
}

/// A top-level declaration as written: one list of declared names per spec.
/// A function has a single spec naming the function.
#[derive(Debug, Clone)]
pub struct DeclGroup {
    pub kind: DeclKind,
    pub spec_names: Vec<Vec<String>>,
}

/// A declaration group narrowed to one of its specs.
#[derive(Debug, Clone, Copy, PartialEq, Eq, Structural)]
pub struct DeclRef {
    pub group: usize,
    pub spec: usize,
}

/// Failures while indexing a parsed file.
#[derive(Debug, Clone, PartialEq, Eq)]
pub enum IndexError {
    /// An import without alias whose path has no segment; holds the path.
    MalformedImport(String),
}

/// Failures while resolving a symbol in an indexed file.
#[derive(Debug, Clone, PartialEq, Eq)]
pub enum ResolveError {
    /// The file declares no symbol of this name.
    SymbolNotFound(String),
}

/// The part of `p` after its last `/`, or all of `p` when it has none.
pub open spec fn last_segment(p: Seq<char>) -> Seq<char>
    decreases p.len(),
{
    if p.len() == 0 {
        Seq::empty()
    } else if p.last() == '/' {
        Seq::empty()
    } else {
        last_segment(p.drop_last()).push(p.last())
    }
}

/// The alias under which an import is known.
pub open spec fn alias_of(i: GoImport) -> Seq<char> {
    match i.name {
        Some(n) => n@,
        None => last_segment(i.path@),
    }
}

/// An import from which no alias can be derived.
pub open spec fn malformed(i: GoImport) -> bool {
    i.name is None && i.path@.len() == 0
}

/// The import table: alias to path, later imports overwriting earlier ones.
pub open spec fn import_table(s: Seq<GoImport>) -> Map<Seq<char>, String>
    decreases s.len(),
{
    if s.len() == 0 {
        Map::empty()
    } else {
        import_table(s.drop_last()).insert(alias_of(s.last()), s.last().path)
    }
}

/// The (name, narrowed declaration) pairs of the names of one spec.
pub open spec fn name_entries(names: Seq<String>, g: int, s: int) -> Seq<(Seq<char>, DeclRef)> {
    names.map_values(|n: String| (n@, DeclRef { group: g as usize, spec: s as usize }))
}

/// The entries of the specs of group `g`, in order.
pub open spec fn spec_entries(specs: Seq<Vec<String>>, g: int) -> Seq<(Seq<char>, DeclRef)>
    decreases specs.len(),
{
    if specs.len() == 0 {
        Seq::empty()
    } else {
        spec_entries(specs.drop_last(), g) + name_entries(
            specs.last()@,
            g,
            specs.len() - 1,
        )
    }
}

/// Every declared name with its narrowed declaration, in source order.
pub open spec fn decl_entries(decls: Seq<DeclGroup>) -> Seq<(Seq<char>, DeclRef)>
    decreases decls.len(),
{
    if decls.len() == 0 {
        Seq::empty()
    } else {
        decl_entries(decls.drop_last()) + spec_entries(
            decls.last().spec_names@,
            decls.len() - 1,
        )
    }
}

/// The declaration table: each name to its narrowed declaration, the last one winning.
pub open spec fn decl_table(decls: Seq<DeclGroup>) -> Map<Seq<char>, DeclRef> {
    map_of_entries(decl_entries(decls))
}

/// Relies on str::rsplit: its first item is the text after the last separator.
#[verifier::external_body]
fn last_path_segment(path: &String) -> (r: String)
    ensures
        r@ == last_segment(path@),
{
    path.rsplit('/').next().unwrap_or("").to_string()
}

/// Builds the import table, deriving a missing alias from the path's last segment.
pub fn extract_imports(imports: &Vec<GoImport>) -> (r: Result<Vec<(String, String)>, IndexError>)
    ensures
        r is Err <==> exists|j: int| 0 <= j < imports@.len() && malformed(#[trigger] imports@[j]),
        r matches Ok(t) ==> represents(t@, import_table(imports@)),
        r matches Err(IndexError::MalformedImport(p)) ==> p@.len() == 0,
{
    let mut t: Vec<(String, String)> = Vec::new();
    let mut i: usize = 0;
    while i < imports.len()
        invariant
            0 <= i <= imports.len(),
            represents(t@, import_table(imports@.subrange(0, i as int))),
            forall|j: int| 0 <= j < i ==> !malformed(#[trigger] imports@[j]),
        decreases imports.len() - i,
    {
        let imp = &imports[i];
        let alias = match &imp.name {
            Some(n) => n.clone(),
            None => {
                if imp.path.as_str().is_empty() {
                    return Err(IndexError::MalformedImport(imp.path.clone()));
                }
                last_path_segment(&imp.path)
            },
        };
        proof {
            assert(imports@.subrange(0, i + 1).drop_last() =~= imports@.subrange(0, i as int));
            assert(alias@ == alias_of(imports@[i as int]));
        }
        insert_entry(
            &mut t,
            alias,
            imp.path.clone(),
            Ghost(import_table(imports@.subrange(0, i as int))),
        );
        i += 1;
    }
    proof {
        assert(imports@.subrange(0, imports@.len() as int) =~= imports@);
    }
    Ok(t)
}

/// Builds the declaration table: one entry per declared name, each pointing at
/// its group narrowed to the spec that declares it; a later name overwrites an
/// earlier one.
pub fn extract_decls(decls: &Vec<DeclGroup>) -> (r: Vec<(String, DeclRef)>)
    ensures
        represents(r@, decl_table(decls@)),
{
    let mut t: Vec<(String, DeclRef)> = Vec::new();
    let mut g: usize = 0;
    while g < decls.len()
        invariant
            0 <= g <= decls.len(),
            represents(t@, map_of_entries(decl_entries(decls@.subrange(0, g as int)))),
        decreases decls.len() - g,
    {
        let specs = &decls[g].spec_names;
        let ghost base = decl_entries(decls@.subrange(0, g as int));
        let mut s: usize = 0;
        while s < specs.len()
            invariant
                0 <= s <= specs.len(),
                g < decls.len(),
                *specs == decls@[g as int].spec_names,
                base == decl_entries(decls@.subrange(0, g as int)),
                represents(
                    t@,
                    map_of_entries(base + spec_entries(specs@.subrange(0, s as int), g as int)),
                ),
            decreases specs.len() - s,
        {
            let names = &specs[s];
            let ghost base2 = base + spec_entries(specs@.subrange(0, s as int), g as int);
            let mut k: usize = 0;
            while k < names.len()
                invariant
                    0 <= k <= names.len(),
                    s < specs.len(),
                    *names == specs@[s as int],
                    represents(
                        t@,
                        map_of_entries(
                            base2 + name_entries(names@.subrange(0, k as int), g as int, s as int),
                        ),
                    ),
                decreases names.len() - k,
            {
                let ghost prev = base2 + name_entries(
                    names@.subrange(0, k as int),
                    g as int,
                    s as int,
                );
                let d = DeclRef { group: g, spec: s };
                insert_entry(&mut t, names[k].clone(), d, Ghost(map_of_entries(prev)));
                proof {
                    let next = base2 + name_entries(
                        names@.subrange(0, k + 1),
                        g as int,
                        s as int,
                    );
                    assert(names@.subrange(0, k + 1) =~= names@.subrange(0, k as int).push(
                        names@[k as int],
                    ));
                    assert(next =~= prev.push((names@[k as int]@, d)));
                    assert(next.drop_last() =~= prev);
                }
                k += 1;
            }
            proof {
                assert(names@.subrange(0, names@.len() as int) =~= names@);
                assert(specs@.subrange(0, s + 1).drop_last() =~= specs@.subrange(0, s as int));
                assert(base + spec_entries(specs@.subrange(0, s + 1), g as int) =~= base2
                    + name_entries(names@, g as int, s as int));
            }
            s += 1;
        }
        proof {
            assert(specs@.subrange(0, specs@.len() as int) =~= specs@);
            assert(decls@.subrange(0, g + 1).drop_last() =~= decls@.subrange(0, g as int));
        }
        g += 1;
    }
    proof {
        assert(decls@.subrange(0, decls@.len() as int) =~= decls@);
    }
    t
}

/// Looks a symbol up in a declaration table.
pub fn lookup_decl(table: &Vec<(String, DeclRef)>, symbol: &GoSymbol) -> (r: Result<
    DeclRef,
    ResolveError,
>)
    requires
        keys_distinct(table@),
    ensures
        r is Ok <==> exists|i: int| 0 <= i < table@.len() && table@[i].0@ == symbol.0@,
        r matches Ok(d) ==> exists|i: int|
            0 <= i < table@.len() && table@[i].0@ == symbol.0@ && table@[i].1 == d,
        r matches Err(ResolveError::SymbolNotFound(n)) ==> n@ == symbol.0@,
{
    match find_entry(table, &symbol.0) {
        Some(d) => Ok(d),
        None => Err(ResolveError::SymbolNotFound(symbol.0.clone())),
    }
}

/// The indexed summary of one Go source file. `C` is the comment type of the parser.
pub struct GoFile<C> {
    pub pkg_name: String,
    pub line_info: Vec<usize>,
    pub docs: Vec<C>,
    pub imports: Vec<(String, String)>,
    pub decls: Vec<(String, DeclRef)>,
    pub comments: Vec<C>,
}

impl<C> GoFile<C> {
    /// The summary's tables hold one entry per key.
    pub open spec fn well_formed(&self) -> bool {
        keys_distinct(self.imports@) && keys_distinct(self.decls@)
    }

    /// Indexes a parsed file: builds its import table and flattens its declarations.
    pub fn from_parts(
        pkg_name: String,
        line_info: Vec<usize>,
        docs: Vec<C>,
        imports: &Vec<GoImport>,
        decls: &Vec<DeclGroup>,
        comments: Vec<C>,
    ) -> (r: Result<GoFile<C>, IndexError>)
        ensures
            r is Err <==> exists|j: int| 0 <= j < imports@.len() && malformed(#[trigger] imports@[j]),
            r matches Ok(f) ==> {
                &&& f.well_formed()
                &&& f.pkg_name == pkg_name
                &&& f.line_info == line_info
                &&& f.docs == docs
                &&& f.comments == comments
                &&& represents(f.imports@, import_table(imports@))
                &&& represents(f.decls@, decl_table(decls@))
            },
    {
        let imports = match extract_imports(imports) {
            Ok(t) => t,
            Err(e) => {
                return Err(e);
            },
        };
        let decls = extract_decls(decls);
        Ok(GoFile { pkg_name, line_info, docs, imports, decls, comments })
    }

    /// Finds the declaration of `symbol` in this file.
    pub fn lookup(&self, symbol: &GoSymbol) -> (r: Result<DeclRef, ResolveError>)
        requires
            self.well_formed(),
        ensures
            r is Ok <==> exists|i: int|
                0 <= i < self.decls@.len() && self.decls@[i].0@ == symbol.0@,
            r matches Ok(d) ==> exists|i: int|
                0 <= i < self.decls@.len() && self.decls@[i].0@ == symbol.0@
                    && self.decls@[i].1 == d,
            r matches Err(ResolveError::SymbolNotFound(n)) ==> n@ == symbol.0@,
    {
        lookup_decl(&self.decls, symbol)
    }
}

/// Marker for the resolver of a whole file by its path `P`; it holds no state.
pub struct GoFileSummoner<P> {
    pub _data: PhantomData<P>,
}

impl<P> GoFileSummoner<P> {
    pub fn new() -> (r: GoFileSummoner<P>)
        ensures
            r._data == PhantomData::<P>,
    {
        GoFileSummoner { _data: PhantomData }
    }
}

impl<P> Default for GoFileSummoner<P> {
    fn default() -> (r: GoFileSummoner<P>)
        ensures
            r._data == PhantomData::<P>,
    {
        Self::new()
    }
}

/// Marker for the resolver of one declaration by `GoSymbolId<P>`; it holds no
/// state and caches nothing.
pub struct GoDeclSummoner<P> {
    pub _data: PhantomData<P>,
}

impl<P> GoDeclSummoner<P> {
    pub fn new() -> (r: GoDeclSummoner<P>)
        ensures
            r._data == PhantomData::<P>,
    {
        GoDeclSummoner { _data: PhantomData }
    }
}

impl<P> Default for GoDeclSummoner<P> {
    fn default() -> (r: GoDeclSummoner<P>)
        ensures
            r._data == PhantomData::<P>,
    {
        Self::new()
    }
}

} // verus!
