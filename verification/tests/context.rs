use a2x::ast::attribute::Attribute;
use a2x::ast::constant::{Constant, CustomType};
use a2x::ast::import::Import;
use a2x::ast::policy::{Policy, PolicyId, RuleCombiningAlgorithm};
use a2x::ast::policyset::{PolicyCombiningAlgorithm, PolicyEntry, PolicySet};
use a2x::ast::typedef::TypeDef;
use a2x::ast::naming::GenName;
use a2x::context::{Config, Context, TypedLiteral};
use a2x::errors::{ErrorKind, ParseError, SrcLoc};

fn ns(parts: &[&str]) -> Vec<String> {
    parts.iter().map(|s| s.to_string()).collect()
}

fn ctx() -> Context {
    Context::new(Config::default()).unwrap()
}

fn bare() -> Context {
    Context::new(Config {
        base_namespace: None,
        enable_builtins: false,
        version: None,
    })
    .unwrap()
}

fn policy(ctx: &mut Context, name: Option<&str>, uri: Option<&str>) -> Policy {
    let slot = ctx.slots.new_slot(name.map(|s| s.to_owned()));
    let mut path = GenName::default();
    path.push_name(slot);
    Policy {
        id: match (name, uri) {
            (None, _) => PolicyId::PolicyNoName,
            (Some(n), None) => PolicyId::PolicyName(n.to_owned()),
            (Some(n), Some(u)) => PolicyId::PolicyNameAndId(n.to_owned(), u.to_owned()),
        },
        ns: ns(&["main"]),
        policy_ns: path,
        src_loc: SrcLoc::default(),
        description: None,
        target: None,
        condition: None,
        apply: RuleCombiningAlgorithm {
            id: "firstApplicable".to_owned(),
            src_loc: SrcLoc::default(),
        },
        rules: vec![],
        prescriptions: vec![],
    }
}

#[test]
fn default_config() {
    let c = Config::default();
    assert!(c.enable_builtins);
    assert_eq!(c.base_namespace, None);
    assert_eq!(
        c.get_base_namespace(),
        "https://sr.ht/~gheartsfield/a2x/alfa/ident/"
    );
    let c = Config {
        base_namespace: Some("urn:x:".to_owned()),
        enable_builtins: true,
        version: None,
    };
    assert_eq!(c.get_base_namespace(), "urn:x:");
}

#[test]
fn builtins_are_found_through_the_default_import() {
    let c = ctx();
    let t = c.lookup_type("string", &ns(&["main"])).unwrap();
    assert_eq!(t.uri, "http://www.w3.org/2001/XMLSchema#string");
    let t = c.lookup_type("_A2X.boolean", &ns(&["main", "deep"])).unwrap();
    assert_eq!(t.uri, "http://www.w3.org/2001/XMLSchema#boolean");
    let f = c.lookup_function("stringEqual", &ns(&["main"])).unwrap();
    assert_eq!(
        f.function_uri,
        "urn:oasis:names:tc:xacml:1.0:function:string-equal"
    );
    let a = c.lookup_attribute("subjectId", &ns(&["main"])).unwrap();
    assert_eq!(a.category, "subjectCat");
    let cat = c.lookup_category("subjectCat", &ns(&["main"])).unwrap();
    assert_eq!(
        cat.uri,
        "urn:oasis:names:tc:xacml:1.0:subject-category:access-subject"
    );
    let pc = c.lookup_policy_combinator("denyOverrides", &ns(&["main"])).unwrap();
    assert_eq!(
        pc.uri,
        "urn:oasis:names:tc:xacml:3.0:policy-combining-algorithm:deny-overrides"
    );
    let rc = c
        .lookup_rule_combinator("firstApplicable", &ns(&["main"]), &SrcLoc::default())
        .unwrap();
    assert_eq!(
        rc.uri,
        "urn:oasis:names:tc:xacml:1.0:rule-combining-algorithm:first-applicable"
    );
    let i = c.lookup_infix("<", &ns(&["main"])).unwrap();
    assert_eq!(i.inverse, Some(">".to_owned()));
    assert!(!i.commutative);
}

#[test]
fn protected_algorithms_are_there_without_builtins() {
    let c = bare();
    assert!(c.lookup_type("string", &ns(&["main"])).is_err());
    let pc = c
        .lookup_policy_combinator("_A2X.PROTECTED.onPermitApplySecond", &ns(&["main"]))
        .unwrap();
    assert_eq!(
        pc.uri,
        "urn:oasis:names:tc:xacml:3.0:policy-combining-algorithm:on-permit-apply-second"
    );
    let rc = c
        .lookup_rule_combinator("_A2X.PROTECTED.permitOverrides", &ns(&["main"]), &SrcLoc::default())
        .unwrap();
    assert_eq!(
        rc.uri,
        "urn:oasis:names:tc:xacml:3.0:rule-combining-algorithm:permit-overrides"
    );
    // the protected namespace is not imported
    assert!(c.lookup_policy_combinator("onPermitApplySecond", &ns(&["main"])).is_err());
}

#[test]
fn counters_count_by_namespace_and_never_repeat() {
    let mut c = bare();
    assert_eq!(c.get_next_policy_id("main"), 0);
    assert_eq!(c.get_next_policy_id("main"), 1);
    assert_eq!(c.get_next_policy_id("other"), 0);
    assert_eq!(c.get_next_policy_id("main"), 2);
    assert_eq!(c.get_next_policyset_id("main"), 0);
    assert_eq!(c.get_next_rule_id("main"), 0);
    assert_eq!(c.get_next_rule_id("main"), 1);
    assert_eq!(c.get_fresh_id(), 0);
    assert_eq!(c.get_fresh_id(), 1);
}

#[test]
fn imports_of_a_namespace_come_before_the_default_ones() {
    let mut c = ctx();
    assert_eq!(
        c.get_imports(&ns(&["main"])),
        Some(vec![Import {
            components: ns(&["_A2X"]),
            is_wildcard: true
        }])
    );
    c.register_import(
        &ns(&["main"]),
        Import {
            components: ns(&["lib"]),
            is_wildcard: true,
        },
    );
    c.register_import(
        &ns(&["main"]),
        Import {
            components: ns(&["lib2", "T"]),
            is_wildcard: false,
        },
    );
    let got = c.get_imports(&ns(&["main"])).unwrap();
    assert_eq!(got.len(), 3);
    assert_eq!(got[0].components, ns(&["lib"]));
    assert_eq!(got[1].components, ns(&["lib2", "T"]));
    assert_eq!(got[2].components, ns(&["_A2X"]));
    let mut b = bare();
    assert_eq!(b.get_imports(&ns(&["main"])), None);
    b.register_import(
        &ns(&["main"]),
        Import {
            components: ns(&["lib"]),
            is_wildcard: true,
        },
    );
    assert_eq!(b.get_imports(&ns(&["main"])).unwrap().len(), 1);
    assert_eq!(b.get_imports(&ns(&["other"])), None);
}

#[test]
fn a_local_type_is_found_before_the_builtin() {
    let mut c = ctx();
    c.register_type(TypeDef {
        id: "string".to_owned(),
        uri: "urn:my:string".to_owned(),
        ns: ns(&["main"]),
    })
    .unwrap();
    assert_eq!(c.lookup_type("string", &ns(&["main"])).unwrap().uri, "urn:my:string");
    assert_eq!(
        c.lookup_type("string", &ns(&["other"])).unwrap().uri,
        "http://www.w3.org/2001/XMLSchema#string"
    );
}

#[test]
fn duplicate_declaration_is_refused() {
    let mut c = ctx();
    let again = TypeDef {
        id: "string".to_owned(),
        uri: "urn:again".to_owned(),
        ns: ns(&["_A2X"]),
    };
    let err = c.register_type(again).unwrap_err();
    assert_eq!(err.kind(), ErrorKind::DuplicateSymbol);
    let attr = Attribute {
        id: "a".to_owned(),
        typedef: "string".to_owned(),
        category: "subjectCat".to_owned(),
        uri: "urn:a".to_owned(),
        ns: ns(&["main"]),
    };
    assert!(c.register_attribute(attr.clone()).is_ok());
    assert_eq!(c.register_attribute(attr).unwrap_err().kind(), ErrorKind::DuplicateSymbol);
}

#[test]
fn constants_become_typed_literals() {
    let c = ctx();
    let here = ns(&["main"]);
    assert_eq!(
        c.constant_to_typedliteral(&Constant::String("x".to_owned()), &here),
        Ok(TypedLiteral {
            type_uri: "http://www.w3.org/2001/XMLSchema#string".to_owned(),
            value: "x".to_owned()
        })
    );
    assert_eq!(
        c.constant_to_typedliteral(&Constant::Integer("-3".to_owned()), &here),
        Ok(TypedLiteral {
            type_uri: "http://www.w3.org/2001/XMLSchema#integer".to_owned(),
            value: "-3".to_owned()
        })
    );
    assert_eq!(
        c.constant_to_typedliteral(&Constant::Double("0.5".to_owned()), &here),
        Ok(TypedLiteral {
            type_uri: "http://www.w3.org/2001/XMLSchema#double".to_owned(),
            value: "0.5".to_owned()
        })
    );
    assert_eq!(
        c.constant_to_typedliteral(&Constant::Boolean(true), &here).unwrap().value,
        "true"
    );
    assert_eq!(
        c.constant_to_typedliteral(&Constant::Boolean(false), &here).unwrap().value,
        "false"
    );
    let ip = Constant::Custom(
        CustomType {
            name: "ipAddress".to_owned(),
        },
        "127.0.0.1".to_owned(),
    );
    assert_eq!(
        c.constant_to_typedliteral(&ip, &here),
        Ok(TypedLiteral {
            type_uri: "urn:oasis:names:tc:xacml:2.0:data-type:ipAddress".to_owned(),
            value: "127.0.0.1".to_owned()
        })
    );
    let unknown = Constant::Custom(
        CustomType {
            name: "nope".to_owned(),
        },
        "1".to_owned(),
    );
    assert_eq!(
        c.constant_to_typedliteral(&unknown, &here).unwrap_err().kind(),
        ErrorKind::SymbolNotFound
    );
    assert_eq!(
        c.constant_to_typedliteral(&Constant::Undefined, &here),
        Err(ParseError::AstConvertError)
    );
}

#[test]
fn inverse_of_an_operator() {
    let c = ctx();
    let inv = c.lookup_infix_inverse("<", &ns(&["main"])).unwrap();
    assert_eq!(inv.operator, ">");
    assert_eq!(
        c.lookup_infix_inverse("==", &ns(&["main"])),
        Err(ParseError::InverseInfixNotFound)
    );
    assert_eq!(
        c.lookup_infix_inverse("<=>", &ns(&["main"])).unwrap_err().kind(),
        ErrorKind::SymbolNotFound
    );
}

#[test]
fn policy_and_policy_set_share_one_namespace() {
    let mut c = ctx();
    let p = policy(&mut c, Some("same"), None);
    assert!(c.register_policy(&p).is_ok());
    let slot = c.slots.new_slot(Some("same".to_owned()));
    let mut path = GenName::default();
    path.push_name(slot);
    let ps = PolicySet {
        id: PolicyId::PolicyName("same".to_owned()),
        ns: ns(&["main"]),
        policy_ns: path,
        src_loc: SrcLoc::default(),
        description: None,
        target: None,
        condition: None,
        apply: PolicyCombiningAlgorithm {
            id: "denyOverrides".to_owned(),
            src_loc: SrcLoc::default(),
        },
        policies: vec![],
        prescriptions: vec![],
    };
    match c.register_policyset(&ps) {
        Err(ParseError::DuplicatePolicyEntity(n)) => assert_eq!(n, "main.same"),
        other => panic!("expected a duplicate policy entity, got {:?}", other),
    }
    // and a second policy of the name is a duplicate symbol
    let again = policy(&mut c, Some("same"), None);
    assert_eq!(c.register_policy(&again).unwrap_err().kind(), ErrorKind::DuplicateSymbol);
    assert!(c.lookup_policy("same", &ns(&["main"])).is_ok());
    assert!(c.lookup_policyset("same", &ns(&["main"])).is_err());
}

#[test]
fn an_identifier_is_given_once() {
    let mut c = ctx();
    let a = policy(&mut c, Some("a"), Some("urn:policy:1"));
    let b = policy(&mut c, Some("b"), Some("urn:policy:1"));
    assert!(c.register_policy(&a).is_ok());
    match c.register_policy(&b) {
        Err(ParseError::DuplicateURI(u)) => assert_eq!(u, "urn:policy:1"),
        other => panic!("expected a duplicate URI, got {:?}", other),
    }
    assert!(c.lookup_policy("b", &ns(&["main"])).is_err());
}

#[test]
fn a_policy_set_registers_what_it_holds() {
    let mut c = ctx();
    let outer_slot = c.slots.new_slot(Some("outer".to_owned()));
    let inner_slot = c.slots.new_slot(Some("inner".to_owned()));
    let mut outer_path = GenName::default();
    outer_path.push_name(outer_slot);
    let mut inner_path = outer_path.clone();
    inner_path.push_name(inner_slot);
    let mut inner = policy(&mut c, Some("inner"), None);
    inner.policy_ns = inner_path;
    let ps = PolicySet {
        id: PolicyId::PolicyName("outer".to_owned()),
        ns: ns(&["main"]),
        policy_ns: outer_path,
        src_loc: SrcLoc::default(),
        description: None,
        target: None,
        condition: None,
        apply: PolicyCombiningAlgorithm {
            id: "denyOverrides".to_owned(),
            src_loc: SrcLoc::default(),
        },
        policies: vec![PolicyEntry::Policy(inner)],
        prescriptions: vec![],
    };
    assert!(c.register_policyset(&ps).is_ok());
    assert!(c.lookup_policyset("outer", &ns(&["main"])).is_ok());
    let h = c.lookup_policy("outer.inner", &ns(&["main"])).unwrap();
    assert!(!h.conditioned);
    assert_eq!(
        h.get_id(&c),
        "https://sr.ht/~gheartsfield/a2x/alfa/ident/main/outer/inner"
    );
}
