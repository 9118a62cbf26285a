use a2x::ast::import::Import;
use a2x::ast::rulecombinator::RuleCombinator;
use a2x::ast::typedef::TypeDef;
use a2x::errors::{ErrorKind, ParseError, SrcLoc};
use a2x::resolver::Resolver;

fn ns(parts: &[&str]) -> Vec<String> {
    parts.iter().map(|s| s.to_string()).collect()
}

fn ty(path: &[&str], id: &str) -> TypeDef {
    TypeDef {
        id: id.to_owned(),
        uri: format!("urn:{}:{}", path.join("."), id),
        ns: ns(path),
    }
}

fn import(path: &[&str], wildcard: bool) -> Import {
    Import {
        components: ns(path),
        is_wildcard: wildcard,
    }
}

fn loc() -> SrcLoc {
    SrcLoc::new("test.alfa", 10, 4)
}

#[test]
fn register_then_exists() {
    let mut r: Resolver<TypeDef> = Resolver::new();
    assert!(!r.exists_fq("main.R1"));
    assert!(r.register(ty(&["main"], "R1")).is_ok());
    assert!(r.exists_fq("main.R1"));
    assert!(!r.exists_fq("R1"));
    assert_eq!(r.names(), vec!["main.R1".to_owned()]);
}

#[test]
fn register_twice_is_a_duplicate_symbol() {
    let mut r: Resolver<TypeDef> = Resolver::new();
    assert!(r.register(ty(&["main"], "R1")).is_ok());
    let second = TypeDef {
        id: "R1".to_owned(),
        uri: "urn:other".to_owned(),
        ns: ns(&["main"]),
    };
    match r.register(second) {
        Err(ParseError::DuplicateSymbol(n)) => assert_eq!(n, "main.R1"),
        other => panic!("expected a duplicate symbol, got {:?}", other),
    }
    // the first registration stays
    let found = r.lookup("main.R1", &ns(&["x"]), &loc(), None).unwrap();
    assert_eq!(found.uri, "urn:main:R1");
}

#[test]
fn register_as_without_a_name_does_nothing() {
    let mut r: Resolver<TypeDef> = Resolver::new();
    assert!(r.register_as(None, ty(&["main"], "R1")).is_ok());
    assert!(r.names().is_empty());
}

#[test]
fn child_match_comes_first() {
    // rule 1 before rule 3: the declaration in the source namespace wins
    // over the one that an import names
    let mut r: Resolver<TypeDef> = Resolver::new();
    r.register(ty(&["main"], "R1")).unwrap();
    r.register(ty(&["main", "child"], "R1")).unwrap();
    let imports = vec![import(&["child", "R1"], false)];
    let found = r.lookup("R1", &ns(&["main"]), &loc(), Some(&imports)).unwrap();
    assert_eq!(found.uri, "urn:main:R1");
}

#[test]
fn root_match_reads_the_symbol_as_qualified() {
    let mut r: Resolver<TypeDef> = Resolver::new();
    r.register(ty(&["root", "sibling"], "R1")).unwrap();
    let found = r.lookup("root.sibling.R1", &ns(&["main"]), &loc(), None).unwrap();
    assert_eq!(found.uri, "urn:root.sibling:R1");
}

#[test]
fn static_import_relative_and_absolute() {
    let mut r: Resolver<TypeDef> = Resolver::new();
    r.register(ty(&["main", "child"], "R1")).unwrap();
    r.register(ty(&["other"], "R2")).unwrap();
    let imports = vec![import(&["child", "R1"], false), import(&["other", "R2"], false)];
    let found = r.lookup("R1", &ns(&["main"]), &loc(), Some(&imports)).unwrap();
    assert_eq!(found.uri, "urn:main.child:R1");
    let found = r.lookup("R2", &ns(&["main"]), &loc(), Some(&imports)).unwrap();
    assert_eq!(found.uri, "urn:other:R2");
    // an import of another symbol does not count
    assert!(r.lookup("R3", &ns(&["main"]), &loc(), Some(&imports)).is_err());
}

#[test]
fn wildcard_import_relative_and_absolute() {
    let mut r: Resolver<TypeDef> = Resolver::new();
    r.register(ty(&["main", "child"], "R1")).unwrap();
    r.register(ty(&["other"], "R2")).unwrap();
    let imports = vec![import(&["child"], true), import(&["other"], true)];
    let found = r.lookup("R1", &ns(&["main"]), &loc(), Some(&imports)).unwrap();
    assert_eq!(found.uri, "urn:main.child:R1");
    let found = r.lookup("R2", &ns(&["main"]), &loc(), Some(&imports)).unwrap();
    assert_eq!(found.uri, "urn:other:R2");
}

#[test]
fn two_wildcards_that_both_define_the_symbol_are_ambiguous() {
    let mut r: Resolver<TypeDef> = Resolver::new();
    r.register(ty(&["a"], "R1")).unwrap();
    r.register(ty(&["b"], "R1")).unwrap();
    let imports = vec![import(&["a"], true), import(&["b"], true)];
    match r.lookup("R1", &ns(&["main"]), &loc(), Some(&imports)) {
        Err(ParseError::AmbiguousImport(s)) => assert_eq!(s, "R1"),
        other => panic!("expected an ambiguous import, got {:?}", other),
    }
}

#[test]
fn two_wildcards_of_which_one_defines_the_symbol() {
    let mut r: Resolver<TypeDef> = Resolver::new();
    r.register(ty(&["a"], "R1")).unwrap();
    r.register(ty(&["b"], "R2")).unwrap();
    let imports = vec![import(&["a"], true), import(&["b"], true)];
    let found = r.lookup("R1", &ns(&["main"]), &loc(), Some(&imports)).unwrap();
    assert_eq!(found.uri, "urn:a:R1");
}

#[test]
fn the_same_import_twice_is_no_ambiguity() {
    let mut r: Resolver<TypeDef> = Resolver::new();
    r.register(ty(&["a"], "R1")).unwrap();
    let imports = vec![import(&["a"], true), import(&["a"], true)];
    let found = r.lookup("R1", &ns(&["main"]), &loc(), Some(&imports)).unwrap();
    assert_eq!(found.uri, "urn:a:R1");
}

#[test]
fn static_import_comes_before_wildcard() {
    let mut r: Resolver<TypeDef> = Resolver::new();
    r.register(ty(&["a"], "R1")).unwrap();
    r.register(ty(&["b"], "R1")).unwrap();
    let imports = vec![import(&["a"], true), import(&["b", "R1"], false)];
    let found = r.lookup("R1", &ns(&["main"]), &loc(), Some(&imports)).unwrap();
    assert_eq!(found.uri, "urn:b:R1");
}

#[test]
fn not_found_points_at_the_source() {
    let r: Resolver<TypeDef> = Resolver::new();
    let err = r.lookup("R1", &ns(&["main"]), &loc(), None).unwrap_err();
    assert_eq!(err.kind(), ErrorKind::SymbolNotFound);
    assert_eq!(err.location(), Some(&loc()));
    let imports = vec![import(&["a"], true)];
    let err = r.lookup("R1", &ns(&["main"]), &loc(), Some(&imports)).unwrap_err();
    assert_eq!(err.kind(), ErrorKind::SymbolNotFound);
}

#[test]
fn lookup_is_repeatable_and_imports_do_not_change_a_direct_match() {
    let mut r: Resolver<RuleCombinator> = Resolver::new();
    r.register(RuleCombinator {
        id: "firstApplicable".to_owned(),
        uri: "urn:fa".to_owned(),
        ns: ns(&["main"]),
    })
    .unwrap();
    r.register(RuleCombinator {
        id: "firstApplicable".to_owned(),
        uri: "urn:other".to_owned(),
        ns: ns(&["lib"]),
    })
    .unwrap();
    let none: Vec<Import> = vec![];
    let some = vec![import(&["lib"], true), import(&["lib", "firstApplicable"], false)];
    let a = r.lookup("firstApplicable", &ns(&["main"]), &loc(), None).unwrap().uri.clone();
    let b = r.lookup("firstApplicable", &ns(&["main"]), &loc(), None).unwrap().uri.clone();
    let c = r
        .lookup("firstApplicable", &ns(&["main"]), &loc(), Some(&none))
        .unwrap()
        .uri
        .clone();
    let d = r
        .lookup("firstApplicable", &ns(&["main"]), &loc(), Some(&some))
        .unwrap()
        .uri
        .clone();
    assert_eq!(a, "urn:fa");
    assert_eq!(a, b);
    assert_eq!(a, c);
    assert_eq!(a, d);
}

#[test]
fn elements_come_once_each_by_rising_name() {
    let mut r: Resolver<TypeDef> = Resolver::new();
    for id in ["zeta", "alpha", "mid", "alphabet"] {
        r.register(TypeDef {
            id: id.to_owned(),
            uri: format!("urn:{id}"),
            ns: vec!["main".to_owned()],
        })
        .unwrap();
    }
    let names: Vec<String> = r.elements().iter().map(|t| t.id.clone()).collect();
    assert_eq!(names, vec!["alpha", "alphabet", "mid", "zeta"]);
}
