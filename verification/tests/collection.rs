use a2x::ast::condition::{CondExpression, Condition};
use a2x::ast::constant::Constant;
use a2x::ast::import::Import;
use a2x::ast::namespace::Namespace;
use a2x::ast::naming::GenName;
use a2x::ast::policy::{Policy, PolicyId, RuleCombiningAlgorithm};
use a2x::ast::policyset::{PolicyCombiningAlgorithm, PolicyEntry, PolicySet};
use a2x::ast::rule::{Effect, RuleDef, RuleEntry, RuleReference};
use a2x::ast::typedef::TypeDef;
use a2x::collection::{compile, AlfaSyntaxTree, AstCollection, AstSource};
use a2x::context::{Config, Context};
use a2x::errors::{ErrorKind, ParseError, SrcLoc};
use a2x::xacml::XTopPolicy;

const BASE: &str = "https://sr.ht/~gheartsfield/a2x/alfa/ident/";

fn ns(parts: &[&str]) -> Vec<String> {
    parts.iter().map(|s| s.to_string()).collect()
}

fn ctx() -> Context {
    Context::new(Config::default()).unwrap()
}

fn policy(ctx: &mut Context, space: &[&str], name: Option<&str>) -> Policy {
    let slot = ctx.slots.new_slot(name.map(|s| s.to_owned()));
    let mut path = GenName::default();
    path.push_name(slot);
    Policy {
        id: match name {
            Some(n) => PolicyId::PolicyName(n.to_owned()),
            None => PolicyId::PolicyNoName,
        },
        ns: ns(space),
        policy_ns: path,
        src_loc: SrcLoc::default(),
        description: None,
        target: None,
        condition: None,
        apply: RuleCombiningAlgorithm {
            id: "firstApplicable".to_owned(),
            src_loc: SrcLoc::default(),
        },
        rules: vec![],
        prescriptions: vec![],
    }
}

fn policyset(ctx: &mut Context, space: &[&str], name: &str) -> PolicySet {
    let slot = ctx.slots.new_slot(Some(name.to_owned()));
    let mut path = GenName::default();
    path.push_name(slot);
    PolicySet {
        id: PolicyId::PolicyName(name.to_owned()),
        ns: ns(space),
        policy_ns: path,
        src_loc: SrcLoc::default(),
        description: None,
        target: None,
        condition: None,
        apply: PolicyCombiningAlgorithm {
            id: "denyOverrides".to_owned(),
            src_loc: SrcLoc::default(),
        },
        policies: vec![],
        prescriptions: vec![],
    }
}

#[test]
fn test_empty() {
    let root = Namespace::new_root("foo".to_string());
    assert!(root.is_root());
    let deep = Namespace::from_components(ns(&["foo", "bar"]));
    assert!(!deep.is_root());
    assert_eq!(deep.dotted_name(), "foo.bar");
    assert_eq!(deep.to_string(), "Namespace('foo.bar', 0 inner-ns)");
}

#[test]
fn a_namespace_registers_what_is_added() {
    let mut c = ctx();
    let mut main = Namespace::new_root("main".to_owned());
    main.add_typedef(
        TypeDef {
            id: "t".to_owned(),
            uri: "urn:t".to_owned(),
            ns: ns(&["main"]),
        },
        &mut c,
    )
    .unwrap();
    assert_eq!(c.lookup_type("t", &ns(&["main"])).unwrap().uri, "urn:t");
    assert_eq!(main.types.len(), 1);
    let again = TypeDef {
        id: "t".to_owned(),
        uri: "urn:again".to_owned(),
        ns: ns(&["main"]),
    };
    assert_eq!(
        main.add_typedef(again, &mut c).unwrap_err().kind(),
        ErrorKind::DuplicateSymbol
    );
    main.add_import(
        Import {
            components: ns(&["lib"]),
            is_wildcard: true,
        },
        &mut c,
    );
    assert_eq!(c.get_imports(&ns(&["main"])).unwrap().len(), 2);
    let p = policy(&mut c, &["main"], Some("p"));
    main.add_policy(p, &mut c).unwrap();
    assert!(c.lookup_policy("p", &ns(&["main"])).is_ok());
    let rule = RuleDef {
        id: Some("r".to_owned()),
        ns: ns(&["main"]),
        policy_ns: GenName::default(),
        description: None,
        effect: Effect::Permit,
        target: None,
        condition: None,
        prescriptions: vec![],
    };
    main.add_rule(rule, &mut c).unwrap();
    assert!(c.lookup_rule("r", &ns(&["main"]), &SrcLoc::default()).is_ok());
    let ps = policyset(&mut c, &["main"], "ps");
    main.add_policyset(ps, &mut c).unwrap();
    assert!(c.lookup_policyset("main.ps", &ns(&["other"])).is_ok());
    assert_eq!(main.policies().len(), 1);
    assert_eq!(main.policysets().len(), 1);
}

#[test]
fn policies_come_from_every_depth_and_policy_sets_from_the_top() {
    let mut c = ctx();
    let mut top = Namespace::new_root("top".to_owned());
    let mut inner = Namespace::from_components(ns(&["top", "inner"]));
    let mut deepest = Namespace::from_components(ns(&["top", "inner", "deepest"]));
    deepest
        .add_policy(policy(&mut c, &["top", "inner", "deepest"], Some("c")), &mut c)
        .unwrap();
    inner
        .add_policy(policy(&mut c, &["top", "inner"], Some("b")), &mut c)
        .unwrap();
    inner
        .add_policyset(policyset(&mut c, &["top", "inner"], "hidden"), &mut c)
        .unwrap();
    inner.add_namespace(deepest);
    top.add_policy(policy(&mut c, &["top"], Some("a")), &mut c).unwrap();
    top.add_policyset(policyset(&mut c, &["top"], "shown"), &mut c).unwrap();
    top.add_namespace(inner);
    let names: Vec<Option<String>> = top.policies().iter().map(|p| p.id.get_name()).collect();
    assert_eq!(
        names,
        vec![Some("a".to_owned()), Some("b".to_owned()), Some("c".to_owned())]
    );
    let tree = AlfaSyntaxTree {
        namespaces: vec![top],
    };
    assert_eq!(tree.policies().len(), 3);
    assert_eq!(tree.policysets().len(), 1);
    let mut collection = AstCollection::new();
    assert!(collection.is_empty());
    collection.add_ast(AstSource {
        filename: "a.alfa".to_owned(),
        ast: tree,
    });
    assert_eq!(collection.len(), 1);
    assert_eq!(collection.policies().len(), 3);
    assert_eq!(collection.policysets().len(), 1);
    let (sets, policies) = collection.into_parts();
    assert_eq!(sets.len(), 1);
    assert_eq!(sets[0].id.get_name(), Some("shown".to_owned()));
    assert_eq!(policies.len(), 3);
}

#[test]
fn compile_gives_policy_sets_first_and_then_policies() {
    let mut c = ctx();
    let mut main = Namespace::new_root("main".to_owned());
    let shared = RuleDef {
        id: Some("R1".to_owned()),
        ns: ns(&["main"]),
        policy_ns: GenName::default(),
        description: None,
        effect: Effect::Permit,
        target: None,
        condition: None,
        prescriptions: vec![],
    };
    main.add_rule(shared, &mut c).unwrap();
    let mut anonymous = policy(&mut c, &["main"], None);
    anonymous.rules = vec![RuleEntry::Ref(RuleReference {
        id: "R1".to_owned(),
        ns: vec![],
        src_loc: SrcLoc::default(),
    })];
    main.add_policy(anonymous, &mut c).unwrap();
    let mut guarded = policy(&mut c, &["main"], Some("guarded"));
    guarded.condition = Some(Condition {
        cond_expr: CondExpression::Lit(Constant::Boolean(true)),
        ns: ns(&["main"]),
        src_loc: SrcLoc::default(),
    });
    main.add_policy(guarded, &mut c).unwrap();
    let mut set = policyset(&mut c, &["main"], "set");
    let mut member = policy(&mut c, &["main"], Some("member"));
    member.policy_ns = {
        let mut p = set.policy_ns.clone();
        p.push_name(member.policy_ns.last_elem().unwrap());
        p
    };
    set.policies = vec![PolicyEntry::Policy(member)];
    main.add_policyset(set, &mut c).unwrap();
    let mut collection = AstCollection::new();
    collection.add_ast(AstSource {
        filename: "main.alfa".to_owned(),
        ast: AlfaSyntaxTree {
            namespaces: vec![main],
        },
    });
    let out = compile(collection, &mut c).unwrap();
    assert_eq!(out.len(), 3);
    match &out[0] {
        XTopPolicy::PolicySet(x) => {
            assert_eq!(x.id, format!("{}main/set", BASE));
            assert_eq!(x.children.len(), 1);
        }
        other => panic!("expected a policy set, got {:?}", other),
    }
    match &out[1] {
        XTopPolicy::Policy(x) => {
            assert_eq!(x.id, format!("{}main/policy_0", BASE));
            assert_eq!(x.rules.len(), 1);
            assert_eq!(x.rules[0].id, format!("{}main/R1#rule_0", BASE));
        }
        other => panic!("expected a policy, got {:?}", other),
    }
    match &out[2] {
        XTopPolicy::PolicySet(x) => {
            assert_eq!(x.id, format!("{}main/guarded", BASE));
            assert_eq!(x.children.len(), 2);
        }
        other => panic!("expected a policy set, got {:?}", other),
    }
    assert_eq!(out[0].filename(), Ok(&"main.set.xml".to_owned()));
    assert_eq!(out[1].filename(), Ok(&"main.policy_0.xml".to_owned()));
    assert_eq!(out[0].policy_count(), 1);
    assert_eq!(out[1].policy_count(), 1);
    assert_eq!(out[1].policyset_count(), 0);
    assert_eq!(out[1].rule_count(), 1);
}

#[test]
fn compile_ends_at_the_first_error() {
    let mut c = ctx();
    let mut main = Namespace::new_root("main".to_owned());
    let mut bad = policy(&mut c, &["main"], Some("bad"));
    bad.apply.id = "noSuchAlgorithm".to_owned();
    main.add_policy(bad, &mut c).unwrap();
    let mut collection = AstCollection::new();
    collection.add_ast(AstSource {
        filename: "main.alfa".to_owned(),
        ast: AlfaSyntaxTree {
            namespaces: vec![main],
        },
    });
    assert_eq!(
        compile(collection, &mut c).unwrap_err().kind(),
        ErrorKind::SymbolNotFound
    );
    // a policy without a name path
    let mut main = Namespace::new_root("main".to_owned());
    let mut pathless = policy(&mut c, &["main"], Some("pathless"));
    pathless.policy_ns = GenName::default();
    main.add_policy(pathless, &mut c).unwrap();
    let mut collection = AstCollection::new();
    collection.add_ast(AstSource {
        filename: "main.alfa".to_owned(),
        ast: AlfaSyntaxTree {
            namespaces: vec![main],
        },
    });
    assert_eq!(compile(collection, &mut c), Err(ParseError::AstConvertError));
}
