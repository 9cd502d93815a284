use summon::go::{
    extract_decls, extract_imports, lookup_decl, DeclGroup, DeclKind, DeclRef, GoDeclSummoner,
    GoFile, GoFileSummoner, GoImport, GoSymbol, GoSymbolId, IndexError, ResolveError,
};

fn import(name: Option<&str>, path: &str) -> GoImport {
    GoImport { name: name.map(|n| n.to_owned()), path: path.to_owned() }
}

fn group(kind: DeclKind, specs: &[&[&str]]) -> DeclGroup {
    DeclGroup {
        kind,
        spec_names: specs.iter().map(|s| s.iter().map(|n| n.to_string()).collect()).collect(),
    }
}

fn get<'a, V>(t: &'a [(String, V)], k: &str) -> Option<&'a V> {
    t.iter().find(|(n, _)| n == k).map(|(_, v)| v)
}

#[test]
fn symbol_id_holds_parts() {
    let id = GoSymbolId::new("main.go", GoSymbol::new("main".to_owned()));
    assert_eq!(id.path, "main.go");
    assert_eq!(id.symbol.0, "main");
    assert!(GoSymbol::new("a".to_owned()) < GoSymbol::new("b".to_owned()));
}

#[test]
fn summoners_hold_no_state() {
    let _f: GoFileSummoner<String> = GoFileSummoner::new();
    let _d: GoDeclSummoner<String> = GoDeclSummoner::default();
    assert_eq!(std::mem::size_of::<GoFileSummoner<String>>(), 0);
    assert_eq!(std::mem::size_of::<GoDeclSummoner<String>>(), 0);
}

#[test]
fn import_alias_from_last_segment() {
    let t = extract_imports(&vec![import(None, "net/http"), import(None, "fmt")]).unwrap();
    assert_eq!(t.len(), 2);
    assert_eq!(get(&t, "http").map(|s| s.as_str()), Some("net/http"));
    assert_eq!(get(&t, "fmt").map(|s| s.as_str()), Some("fmt"));
}

#[test]
fn import_explicit_alias_wins() {
    let t = extract_imports(&vec![import(Some("h"), "net/http")]).unwrap();
    assert_eq!(t.len(), 1);
    assert_eq!(get(&t, "h").map(|s| s.as_str()), Some("net/http"));
    assert_eq!(get(&t, "http"), None);
}

#[test]
fn import_trailing_slash_gives_empty_alias() {
    let t = extract_imports(&vec![import(None, "a/")]).unwrap();
    assert_eq!(get(&t, "").map(|s| s.as_str()), Some("a/"));
}

#[test]
fn import_empty_path_is_reported() {
    let r = extract_imports(&vec![import(None, "fmt"), import(None, "")]);
    assert_eq!(r, Err(IndexError::MalformedImport(String::new())));
    assert!(extract_imports(&vec![import(Some("x"), "")]).is_ok());
}

#[test]
fn grouped_declarations_are_flattened() {
    let decls = vec![
        group(DeclKind::Function, &[&["main"]]),
        group(DeclKind::Type, &[&["A"], &["B"], &["C"]]),
        group(DeclKind::Const, &[&["x", "y"], &["z"]]),
    ];
    let t = extract_decls(&decls);
    assert_eq!(t.len(), 7);
    assert_eq!(get(&t, "main"), Some(&DeclRef { group: 0, spec: 0 }));
    assert_eq!(get(&t, "A"), Some(&DeclRef { group: 1, spec: 0 }));
    assert_eq!(get(&t, "B"), Some(&DeclRef { group: 1, spec: 1 }));
    assert_eq!(get(&t, "C"), Some(&DeclRef { group: 1, spec: 2 }));
    assert_eq!(get(&t, "x"), Some(&DeclRef { group: 2, spec: 0 }));
    assert_eq!(get(&t, "y"), Some(&DeclRef { group: 2, spec: 0 }));
    assert_eq!(get(&t, "z"), Some(&DeclRef { group: 2, spec: 1 }));
}

#[test]
fn duplicate_declaration_last_wins() {
    let decls = vec![
        group(DeclKind::Var, &[&["v"]]),
        group(DeclKind::Function, &[&["f"]]),
        group(DeclKind::Function, &[&["v"]]),
    ];
    let t = extract_decls(&decls);
    assert_eq!(t.len(), 2);
    assert_eq!(get(&t, "v"), Some(&DeclRef { group: 2, spec: 0 }));
}

#[test]
fn missing_symbol_is_named() {
    let decls = vec![
        group(DeclKind::Function, &[&["main"]]),
        group(DeclKind::Function, &[&["helper"]]),
    ];
    let file = GoFile::<()>::from_parts(
        "main".to_owned(),
        vec![0, 10],
        vec![],
        &vec![import(None, "fmt")],
        &decls,
        vec![],
    )
    .unwrap();
    assert_eq!(file.pkg_name, "main");
    assert_eq!(
        file.lookup(&GoSymbol::new("missing".to_owned())),
        Err(ResolveError::SymbolNotFound("missing".to_owned()))
    );
    assert_eq!(
        file.lookup(&GoSymbol::new("main".to_owned())),
        Ok(DeclRef { group: 0, spec: 0 })
    );
    assert_eq!(
        lookup_decl(&file.decls, &GoSymbol::new("helper".to_owned())),
        Ok(DeclRef { group: 1, spec: 0 })
    );
}

#[test]
fn file_with_malformed_import_fails() {
    let r = GoFile::<()>::from_parts(
        "p".to_owned(),
        vec![],
        vec![],
        &vec![import(None, "")],
        &vec![],
        vec![],
    );
    assert!(matches!(r, Err(IndexError::MalformedImport(_))));
}
