use a2x::ast::condition::{CondExpression, Condition};
use a2x::ast::constant::Constant;
use a2x::ast::naming::GenName;
use a2x::ast::operator::Operator;
use a2x::ast::policy::{Policy, PolicyId, RuleCombiningAlgorithm};
use a2x::ast::policyset::{PolicyCombiningAlgorithm, PolicyEntry, PolicyReference, PolicySet};
use a2x::ast::rule::{Effect, RuleDef, RuleEntry, RuleReference};
use a2x::ast::target::{ConjunctiveSeq, DisjunctiveSeq, Match, MatchOperation, Target};
use a2x::ast::attribute::Attribute;
use a2x::context::{Config, Context};
use a2x::errors::{ErrorKind, ParseError, SrcLoc};
use a2x::xacml::xpolicy::XPolicy;
use a2x::xacml::xpolicyentry::XPolicyEntry;
use a2x::xacml::xpolicyset::XPolicySet;
use a2x::xacml::xrule::XRule;
use a2x::xacml::XTopPolicy;

const BASE: &str = "https://sr.ht/~gheartsfield/a2x/alfa/ident/";

fn ns(parts: &[&str]) -> Vec<String> {
    parts.iter().map(|s| s.to_string()).collect()
}

fn ctx() -> Context {
    let mut c = Context::new(Config::default()).unwrap();
    c.register_attribute(Attribute {
        id: "age".to_owned(),
        typedef: "integer".to_owned(),
        category: "subjectCat".to_owned(),
        uri: "urn:attr:age".to_owned(),
        ns: ns(&["main"]),
    })
    .unwrap();
    c
}

fn path(ctx: &mut Context, above: &GenName, name: Option<&str>) -> GenName {
    let slot = ctx.slots.new_slot(name.map(|s| s.to_owned()));
    let mut p = above.clone();
    p.push_name(slot);
    p
}

fn id(name: Option<&str>) -> PolicyId {
    match name {
        Some(n) => PolicyId::PolicyName(n.to_owned()),
        None => PolicyId::PolicyNoName,
    }
}

fn truth() -> Condition {
    Condition {
        cond_expr: CondExpression::Lit(Constant::Boolean(true)),
        ns: ns(&["main"]),
        src_loc: SrcLoc::default(),
    }
}

fn target() -> Target {
    Target {
        clauses: vec![DisjunctiveSeq {
            statements: vec![ConjunctiveSeq {
                matches: vec![Match::MatchOp(MatchOperation {
                    attribute: ns(&["age"]),
                    operator: Operator {
                        ns: vec![],
                        operator: "<".to_owned(),
                    },
                    literal: Constant::Integer("40".to_owned()),
                    reversed: false,
                    issuer: None,
                    mustbepresent: false,
                })],
            }],
        }],
        ns: ns(&["main"]),
    }
}

fn rule(policy_ns: &GenName, name: Option<&str>, effect: Effect) -> RuleDef {
    RuleDef {
        id: name.map(|s| s.to_owned()),
        ns: ns(&["main"]),
        policy_ns: policy_ns.clone(),
        description: None,
        effect,
        target: None,
        condition: None,
        prescriptions: vec![],
    }
}

fn policy(ctx: &mut Context, above: &GenName, name: Option<&str>) -> Policy {
    let p = path(ctx, above, name);
    Policy {
        id: id(name),
        ns: ns(&["main"]),
        policy_ns: p,
        src_loc: SrcLoc::default(),
        description: None,
        target: None,
        condition: None,
        apply: RuleCombiningAlgorithm {
            id: "firstApplicable".to_owned(),
            src_loc: SrcLoc::new("p.alfa", 3, 21),
        },
        rules: vec![],
        prescriptions: vec![],
    }
}

fn policyset(ctx: &mut Context, above: &GenName, name: Option<&str>) -> PolicySet {
    let p = path(ctx, above, name);
    PolicySet {
        id: id(name),
        ns: ns(&["main"]),
        policy_ns: p,
        src_loc: SrcLoc::default(),
        description: None,
        target: None,
        condition: None,
        apply: PolicyCombiningAlgorithm {
            id: "denyOverrides".to_owned(),
            src_loc: SrcLoc::default(),
        },
        policies: vec![],
        prescriptions: vec![],
    }
}

#[test]
fn policy_id_names() {
    assert_eq!(PolicyId::PolicyNoName.get_name(), None);
    assert_eq!(PolicyId::PolicyName("a".to_owned()).get_name(), Some("a".to_owned()));
    assert_eq!(
        PolicyId::PolicyNameAndId("a".to_owned(), "urn:a".to_owned()).get_name(),
        Some("a".to_owned())
    );
}

#[test]
fn references_spell_their_names() {
    let r = PolicyReference {
        id: "p".to_owned(),
        ns: ns(&["a", "b"]),
    };
    assert_eq!(r.fully_qualified_name(), "a.b.p");
    let r = PolicyReference {
        id: "p".to_owned(),
        ns: vec![],
    };
    assert_eq!(r.fully_qualified_name(), "p");
    let r = RuleReference {
        id: "r".to_owned(),
        ns: ns(&["a"]),
        src_loc: SrcLoc::default(),
    };
    assert_eq!(r.fully_qualified_name(), Some("a.r".to_owned()));
}

#[test]
fn two_anonymous_policies_get_different_names() {
    let mut c = ctx();
    let a = policy(&mut c, &GenName::default(), None);
    let b = policy(&mut c, &GenName::default(), None);
    a.finalize_id(&mut c);
    b.finalize_id(&mut c);
    assert_eq!(a.policy_ns.build_path(&c.slots, "."), Some("policy_0".to_owned()));
    assert_eq!(b.policy_ns.build_path(&c.slots, "."), Some("policy_1".to_owned()));
    // a second call changes nothing
    a.finalize_id(&mut c);
    assert_eq!(a.policy_ns.build_path(&c.slots, "."), Some("policy_0".to_owned()));
    assert_eq!(a.get_filename(&c.slots), Some("main.policy_0.xml".to_owned()));
    assert_eq!(a.get_id(&c), format!("{}main/policy_0", BASE));
    assert_eq!(a.fully_qualified_name(&c.slots), None);
}

#[test]
fn a_manual_policy_0_forces_the_next_name_past_it() {
    let mut c = ctx();
    let manual = policy(&mut c, &GenName::default(), Some("policy_0"));
    c.register_policy(&manual).unwrap();
    let anonymous = policy(&mut c, &GenName::default(), None);
    anonymous.finalize_id(&mut c);
    assert_eq!(
        anonymous.policy_ns.build_path(&c.slots, "."),
        Some("policy_1".to_owned())
    );
    // the counter went on: the rejected number is not handed out again
    assert_eq!(c.get_next_policy_id("main"), 2);
}

#[test]
fn policy_sets_are_named_from_their_own_counter() {
    let mut c = ctx();
    let a = policyset(&mut c, &GenName::default(), None);
    let p = policy(&mut c, &GenName::default(), None);
    a.finalize_id(&mut c);
    p.finalize_id(&mut c);
    assert_eq!(a.policy_ns.build_path(&c.slots, "."), Some("policyset_0".to_owned()));
    assert_eq!(p.policy_ns.build_path(&c.slots, "."), Some("policy_0".to_owned()));
    assert_eq!(a.get_filename(&c.slots), Some("main.policyset_0.xml".to_owned()));
}

#[test]
fn an_explicit_identifier_is_used_as_it_is() {
    let mut c = ctx();
    let mut p = policy(&mut c, &GenName::default(), Some("named"));
    p.id = PolicyId::PolicyNameAndId("named".to_owned(), "urn:my:policy".to_owned());
    assert_eq!(p.get_id(&c), "urn:my:policy");
    assert_eq!(p.fully_qualified_name(&c.slots), Some("main.named".to_owned()));
}

#[test]
fn an_unsettled_path_gives_a_uuid() {
    let mut c = ctx();
    let p = policy(&mut c, &GenName::default(), None);
    let got = p.get_id(&c);
    assert!(got.starts_with("urn:uuid:"));
    assert_eq!(got.len(), "urn:uuid:".len() + 36);
    assert_eq!(p.get_filename(&c.slots), None);
}

#[test]
fn rule_identifiers() {
    let mut c = ctx();
    let p = policy(&mut c, &GenName::default(), Some("pol"));
    let named = rule(&p.policy_ns, Some("r1"), Effect::Permit);
    let anonymous = rule(&p.policy_ns, None, Effect::Deny);
    assert_eq!(named.get_id(&mut c), format!("{}main/pol/r1", BASE));
    assert_eq!(anonymous.get_id(&mut c), format!("{}main/pol#rule_0", BASE));
    assert_eq!(anonymous.get_id(&mut c), format!("{}main/pol#rule_1", BASE));
    assert_eq!(named.fully_qualified_name(&c.slots), Some("main.pol.r1".to_owned()));
    assert_eq!(anonymous.fully_qualified_name(&c.slots), None);
    let free = rule(&GenName::default(), Some("r2"), Effect::Permit);
    assert_eq!(free.fully_qualified_name(&c.slots), Some("main.r2".to_owned()));
    assert_eq!(free.get_id(&mut c), format!("{}main/r2", BASE));
}

#[test]
fn decondition_needs_a_condition() {
    let mut c = ctx();
    let p = policy(&mut c, &GenName::default(), Some("plain"));
    let slots_before = c.slots.len();
    assert_eq!(p.decondition(&mut c.slots), Err(ParseError::PolicyNoCondition));
    assert_eq!(c.slots.len(), slots_before);
    let ps = policyset(&mut c, &GenName::default(), Some("plainset"));
    assert_eq!(ps.decondition(&mut c.slots), Err(ParseError::PolicySetNoCondition));
}

#[test]
fn decondition_of_a_policy() {
    let mut c = ctx();
    let mut p = policy(&mut c, &GenName::default(), Some("guarded"));
    p.id = PolicyId::PolicyNameAndId("guarded".to_owned(), "urn:guarded".to_owned());
    p.description = Some("what it is for".to_owned());
    p.target = Some(target());
    p.condition = Some(truth());
    p.rules = vec![
        RuleEntry::Def(rule(&p.policy_ns, Some("r1"), Effect::Permit)),
        RuleEntry::Def(rule(&p.policy_ns, None, Effect::Deny)),
    ];
    let rules = p.rules.clone();
    let own_path = p.policy_ns.clone();
    let outer = p.decondition(&mut c.slots).unwrap();
    // the wrapper keeps identifier, name path and description
    assert_eq!(
        outer.id,
        PolicyId::PolicyNameAndId("guarded".to_owned(), "urn:guarded".to_owned())
    );
    assert_eq!(outer.policy_ns, own_path);
    assert_eq!(outer.description, Some("what it is for".to_owned()));
    assert_eq!(outer.target, None);
    assert_eq!(outer.condition, None);
    assert_eq!(outer.apply.id, "_A2X.PROTECTED.onPermitApplySecond");
    assert_eq!(outer.policies.len(), 2);
    // first the guard
    match &outer.policies[0] {
        PolicyEntry::Policy(guard) => {
            assert_eq!(guard.id, PolicyId::PolicyName("cond".to_owned()));
            assert_eq!(guard.apply.id, "_A2X.PROTECTED.permitOverrides");
            assert_eq!(guard.target, None);
            assert_eq!(guard.condition, None);
            assert_eq!(guard.rules.len(), 1);
            assert_eq!(
                guard.policy_ns.build_path(&c.slots, "."),
                Some("guarded.cond".to_owned())
            );
            match &guard.rules[0] {
                RuleEntry::Def(r) => {
                    assert_eq!(r.effect, Effect::Permit);
                    assert_eq!(r.target, None);
                    assert_eq!(r.condition, Some(truth()));
                    assert_eq!(r.id, None);
                }
                other => panic!("expected a rule, got {:?}", other),
            }
        }
        other => panic!("expected a policy, got {:?}", other),
    }
    // then the policy itself
    match &outer.policies[1] {
        PolicyEntry::Policy(orig) => {
            assert_eq!(orig.id, PolicyId::PolicyName("orig".to_owned()));
            assert_eq!(orig.condition, None);
            assert_eq!(orig.target, Some(target()));
            assert_eq!(orig.rules, rules);
            assert_eq!(orig.description, Some("what it is for".to_owned()));
            assert_eq!(orig.apply.id, "firstApplicable");
            assert_eq!(
                orig.policy_ns.build_path(&c.slots, "."),
                Some("guarded.orig".to_owned())
            );
        }
        other => panic!("expected a policy, got {:?}", other),
    }
}

#[test]
fn decondition_of_a_policy_set_threads_orig_through_what_it_holds() {
    let mut c = ctx();
    let mut outer = policyset(&mut c, &GenName::default(), Some("top"));
    let mut middle = policyset(&mut c, &outer.policy_ns, None);
    let leaf = policy(&mut c, &middle.policy_ns, Some("leaf"));
    let side = policy(&mut c, &outer.policy_ns, Some("side"));
    let leaf_slot = leaf.policy_ns.last_elem().unwrap();
    let middle_slot = middle.policy_ns.last_elem().unwrap();
    middle.policies = vec![PolicyEntry::Policy(leaf)];
    outer.policies = vec![
        PolicyEntry::PolicySet(middle),
        PolicyEntry::Policy(side),
        PolicyEntry::Ref(PolicyReference {
            id: "elsewhere".to_owned(),
            ns: vec![],
        }),
    ];
    outer.condition = Some(truth());
    let wrapped = outer.decondition(&mut c.slots).unwrap();
    assert_eq!(wrapped.policies.len(), 2);
    assert_eq!(wrapped.policy_ns.build_path(&c.slots, "."), Some("top".to_owned()));
    let orig = match &wrapped.policies[1] {
        PolicyEntry::PolicySet(o) => o,
        other => panic!("expected a policy set, got {:?}", other),
    };
    assert_eq!(orig.id, PolicyId::PolicyName("orig".to_owned()));
    assert_eq!(orig.condition, None);
    assert_eq!(orig.policies.len(), 3);
    assert_eq!(orig.policy_ns.build_path(&c.slots, "."), Some("top.orig".to_owned()));
    match &orig.policies[0] {
        PolicyEntry::PolicySet(m) => {
            // the name of the middle set is not settled yet
            assert_eq!(m.policy_ns.len(), 3);
            assert_eq!(m.policy_ns.last_elem(), Some(middle_slot));
            assert!(c.slots.fill(middle_slot, "policyset_0".to_owned()));
            assert_eq!(
                m.policy_ns.build_path(&c.slots, "."),
                Some("top.orig.policyset_0".to_owned())
            );
            match &m.policies[0] {
                PolicyEntry::Policy(l) => {
                    assert_eq!(l.policy_ns.last_elem(), Some(leaf_slot));
                    assert_eq!(
                        l.policy_ns.build_path(&c.slots, "."),
                        Some("top.orig.policyset_0.leaf".to_owned())
                    );
                }
                other => panic!("expected a policy, got {:?}", other),
            }
        }
        other => panic!("expected a policy set, got {:?}", other),
    }
    match &orig.policies[1] {
        PolicyEntry::Policy(s) => assert_eq!(
            s.policy_ns.build_path(&c.slots, "."),
            Some("top.orig.side".to_owned())
        ),
        other => panic!("expected a policy, got {:?}", other),
    }
    assert!(matches!(&orig.policies[2], PolicyEntry::Ref(_)));
}

#[test]
fn a_policy_becomes_an_xpolicy() {
    let mut c = ctx();
    let mut p = policy(&mut c, &GenName::default(), None);
    p.description = Some("d".to_owned());
    p.target = Some(target());
    let mut guarded = rule(&p.policy_ns, Some("r1"), Effect::Permit);
    guarded.condition = Some(truth());
    p.rules = vec![
        RuleEntry::Def(guarded),
        RuleEntry::Def(rule(&p.policy_ns, None, Effect::Deny)),
    ];
    let x = XPolicy::try_from(&p, &mut c).unwrap();
    assert_eq!(x.id, format!("{}main/policy_0", BASE));
    assert_eq!(x.filename, Some("main.policy_0.xml".to_owned()));
    assert_eq!(
        x.combining_alg,
        "urn:oasis:names:tc:xacml:1.0:rule-combining-algorithm:first-applicable"
    );
    assert_eq!(x.description, Some("d".to_owned()));
    assert_eq!(x.target.anyofs.len(), 1);
    assert_eq!(x.rule_count(), 2);
    assert_eq!(x.rules[0].id, format!("{}main/policy_0/r1", BASE));
    assert_eq!(x.rules[0].effect, "Permit");
    assert!(x.rules[0].condition.is_some());
    assert_eq!(x.rules[1].id, format!("{}main/policy_0#rule_0", BASE));
    assert_eq!(x.rules[1].effect, "Deny");
    assert_eq!(x.rules[1].condition, None);
}

#[test]
fn a_policy_with_a_condition_is_no_xpolicy() {
    let mut c = ctx();
    let mut p = policy(&mut c, &GenName::default(), Some("guarded"));
    p.condition = Some(truth());
    assert_eq!(XPolicy::try_from(&p, &mut c), Err(ParseError::PolicyHasCondition));
    let plain = policy(&mut c, &GenName::default(), Some("plain"));
    assert_eq!(
        XPolicySet::try_from_policy(plain, &mut c),
        Err(ParseError::PolicyNoCondition)
    );
}

#[test]
fn an_unknown_algorithm_points_at_the_apply_statement() {
    let mut c = ctx();
    let mut p = policy(&mut c, &GenName::default(), Some("p"));
    p.apply.id = "noSuchAlgorithm".to_owned();
    let err = XPolicy::try_from(&p, &mut c).unwrap_err();
    assert_eq!(err.kind(), ErrorKind::SymbolNotFound);
    assert_eq!(err.location(), Some(&SrcLoc::new("p.alfa", 3, 21)));
}

#[test]
fn a_rule_by_reference_gets_a_number_behind_its_identifier() {
    let mut c = ctx();
    let shared = rule(&GenName::default(), Some("shared"), Effect::Permit);
    c.register_rule(shared).unwrap();
    let mut p = policy(&mut c, &GenName::default(), Some("p"));
    p.rules = vec![
        RuleEntry::Ref(RuleReference {
            id: "shared".to_owned(),
            ns: vec![],
            src_loc: SrcLoc::default(),
        }),
        RuleEntry::Ref(RuleReference {
            id: "shared".to_owned(),
            ns: ns(&["main"]),
            src_loc: SrcLoc::default(),
        }),
    ];
    let x = XPolicy::try_from(&p, &mut c).unwrap();
    assert_eq!(x.rules.len(), 2);
    assert_eq!(x.rules[0].id, format!("{}main/shared#rule_0", BASE));
    assert_eq!(x.rules[1].id, format!("{}main/shared#rule_1", BASE));
    let mut q = policy(&mut c, &GenName::default(), Some("q"));
    q.rules = vec![RuleEntry::Ref(RuleReference {
        id: "missing".to_owned(),
        ns: vec![],
        src_loc: SrcLoc::new("q.alfa", 1, 2),
    })];
    let err = XPolicy::try_from(&q, &mut c).unwrap_err();
    assert_eq!(err.kind(), ErrorKind::SymbolNotFound);
    assert_eq!(err.location(), Some(&SrcLoc::new("q.alfa", 1, 2)));
}

#[test]
fn a_conditioned_policy_becomes_a_policy_set_of_two() {
    let mut c = ctx();
    let mut p = policy(&mut c, &GenName::default(), Some("guarded"));
    p.condition = Some(truth());
    p.target = Some(target());
    p.rules = vec![RuleEntry::Def(rule(&p.policy_ns, Some("r1"), Effect::Permit))];
    let x = match XPolicyEntry::try_from(p, &mut c).unwrap() {
        XPolicyEntry::PolicySet(x) => x,
        other => panic!("expected a policy set, got {:?}", other),
    };
    assert_eq!(x.id, format!("{}main/guarded", BASE));
    assert_eq!(x.filename, Some("main.guarded.xml".to_owned()));
    assert_eq!(
        x.combining_alg,
        "urn:oasis:names:tc:xacml:3.0:policy-combining-algorithm:on-permit-apply-second"
    );
    assert_eq!(x.target.anyofs.len(), 0);
    assert_eq!(x.children.len(), 2);
    match &x.children[0] {
        XPolicyEntry::Policy(guard) => {
            assert_eq!(guard.id, format!("{}main/guarded/cond", BASE));
            assert_eq!(
                guard.combining_alg,
                "urn:oasis:names:tc:xacml:3.0:rule-combining-algorithm:permit-overrides"
            );
            assert_eq!(guard.rules.len(), 1);
            assert_eq!(guard.rules[0].effect, "Permit");
            assert!(guard.rules[0].condition.is_some());
            assert_eq!(guard.rules[0].target.anyofs.len(), 0);
            assert_eq!(guard.rules[0].id, format!("{}main/guarded/cond#rule_0", BASE));
        }
        other => panic!("expected a policy, got {:?}", other),
    }
    match &x.children[1] {
        XPolicyEntry::Policy(orig) => {
            assert_eq!(orig.id, format!("{}main/guarded/orig", BASE));
            assert_eq!(orig.target.anyofs.len(), 1);
            assert_eq!(orig.rules.len(), 1);
        }
        other => panic!("expected a policy, got {:?}", other),
    }
    let top = XTopPolicy::PolicySet(x);
    assert_eq!(top.rule_count(), 2);
    assert_eq!(top.policy_count(), 2);
    assert_eq!(top.policyset_count(), 1);
}

#[test]
fn a_policy_set_with_members_and_references() {
    let mut c = ctx();
    let other = policy(&mut c, &GenName::default(), Some("other"));
    c.register_policy(&other).unwrap();
    let mut guarded = policy(&mut c, &GenName::default(), Some("guardedElsewhere"));
    guarded.condition = Some(truth());
    c.register_policy(&guarded).unwrap();
    let referenced_set = policyset(&mut c, &GenName::default(), Some("otherSet"));
    c.register_policyset(&referenced_set).unwrap();

    let mut top = policyset(&mut c, &GenName::default(), None);
    let mut inner = policyset(&mut c, &top.policy_ns, Some("inner"));
    inner.condition = Some(truth());
    let mut leaf = policy(&mut c, &inner.policy_ns, None);
    leaf.rules = vec![RuleEntry::Def(rule(&leaf.policy_ns, None, Effect::Permit))];
    inner.policies = vec![PolicyEntry::Policy(leaf)];
    let plain = policy(&mut c, &top.policy_ns, Some("plain"));
    top.policies = vec![
        PolicyEntry::PolicySet(inner),
        PolicyEntry::Policy(plain),
        PolicyEntry::Ref(PolicyReference {
            id: "other".to_owned(),
            ns: vec![],
        }),
        PolicyEntry::Ref(PolicyReference {
            id: "guardedElsewhere".to_owned(),
            ns: ns(&["main"]),
        }),
        PolicyEntry::Ref(PolicyReference {
            id: "otherSet".to_owned(),
            ns: vec![],
        }),
    ];
    let x = XPolicySet::try_from(top, &mut c).unwrap();
    assert_eq!(x.id, format!("{}main/policyset_0", BASE));
    assert_eq!(
        x.combining_alg,
        "urn:oasis:names:tc:xacml:3.0:policy-combining-algorithm:deny-overrides"
    );
    assert_eq!(x.children.len(), 5);
    match &x.children[0] {
        XPolicyEntry::PolicySet(wrapped) => {
            assert_eq!(wrapped.id, format!("{}main/policyset_0/inner", BASE));
            assert_eq!(wrapped.children.len(), 2);
            match &wrapped.children[1] {
                XPolicyEntry::PolicySet(orig) => {
                    assert_eq!(orig.id, format!("{}main/policyset_0/inner/orig", BASE));
                    assert_eq!(orig.children.len(), 1);
                    match &orig.children[0] {
                        XPolicyEntry::Policy(l) => {
                            assert_eq!(
                                l.id,
                                format!("{}main/policyset_0/inner/orig/policy_0", BASE)
                            );
                            // the path of a rule is its own: it does not go
                            // through the new level
                            assert_eq!(
                                l.rules[0].id,
                                format!("{}main/policyset_0/inner/policy_0#rule_1", BASE)
                            );
                        }
                        other => panic!("expected a policy, got {:?}", other),
                    }
                }
                other => panic!("expected a policy set, got {:?}", other),
            }
        }
        other => panic!("expected a policy set, got {:?}", other),
    }
    assert!(matches!(&x.children[1], XPolicyEntry::Policy(_)));
    assert_eq!(
        x.children[2],
        XPolicyEntry::PolicyIdRef(format!("{}main/other", BASE))
    );
    assert_eq!(
        x.children[3],
        XPolicyEntry::PolicySetIdRef(format!("{}main/guardedElsewhere", BASE))
    );
    assert_eq!(
        x.children[4],
        XPolicyEntry::PolicySetIdRef(format!("{}main/otherSet", BASE))
    );
    assert_eq!(x.rule_count(), 2);
    assert_eq!(x.policy_count(), 3);
    assert_eq!(x.policyset_count(), 2);
}

#[test]
fn a_reference_to_nothing_is_refused() {
    let mut c = ctx();
    let mut top = policyset(&mut c, &GenName::default(), Some("top"));
    top.policies = vec![PolicyEntry::Ref(PolicyReference {
        id: "nowhere".to_owned(),
        ns: vec![],
    })];
    assert_eq!(
        XPolicySet::try_from(top, &mut c).unwrap_err().kind(),
        ErrorKind::UnexpectedRuleError
    );
}

#[test]
fn a_rule_with_a_condition_that_is_no_boolean() {
    let mut c = ctx();
    let p = policy(&mut c, &GenName::default(), Some("p"));
    let mut r = rule(&p.policy_ns, Some("r"), Effect::Permit);
    r.condition = Some(Condition {
        cond_expr: CondExpression::Lit(Constant::Integer("3".to_owned())),
        ns: ns(&["main"]),
        src_loc: SrcLoc::new("r.alfa", 2, 11),
    });
    let err = XRule::try_from(&r, &mut c).unwrap_err();
    assert_eq!(err.kind(), ErrorKind::ConditionBooleanRequired);
    assert_eq!(err.location(), Some(&SrcLoc::new("r.alfa", 2, 11)));
    // no number was drawn
    assert_eq!(c.get_next_rule_id("main"), 0);
}

#[test]
fn a_copy_of_a_rule_is_the_rule() {
    let mut c = ctx();
    let above = GenName::default();
    let p = path(&mut c, &above, Some("p"));
    let mut r = rule(&p, Some("r"), Effect::Deny);
    r.description = Some("what it is for".to_owned());
    r.target = Some(target());
    r.condition = Some(truth());
    let copy = r.copy();
    assert_eq!(copy, r);
    assert_eq!(copy.fully_qualified_name(&c.slots), Some("main.p.r".to_owned()));
}

#[test]
fn a_policy_with_an_unknown_algorithm_leaves_the_rest_untouched() {
    let mut c = ctx();
    let above = GenName::default();
    let mut p = policy(&mut c, &above, Some("p"));
    p.apply.id = "noSuchAlgorithm".to_owned();
    let inner = p.policy_ns.clone();
    p.rules = vec![RuleEntry::Def(rule(&inner, None, Effect::Permit))];
    let err = XPolicyEntry::try_from(p, &mut c).unwrap_err();
    assert_eq!(err.kind(), ErrorKind::SymbolNotFound);
    assert_eq!(c.get_next_rule_id("main"), 0);
}

#[test]
fn a_generated_policy_set_name_avoids_registered_policy_sets() {
    let mut c = ctx();
    let above = GenName::default();
    let named = policyset(&mut c, &above, Some("policyset_0"));
    c.register_policyset(&named).unwrap();
    let anonymous = policyset(&mut c, &above, None);
    anonymous.finalize_id(&mut c);
    assert_eq!(
        anonymous.policy_ns.build_path(&c.slots, "."),
        Some("policyset_1".to_owned())
    );
}

#[test]
fn a_generated_policy_name_avoids_registered_policy_sets() {
    let mut c = ctx();
    let above = GenName::default();
    let named = policyset(&mut c, &above, Some("policy_0"));
    c.register_policyset(&named).unwrap();
    let anonymous = policy(&mut c, &above, None);
    anonymous.finalize_id(&mut c);
    assert_eq!(
        anonymous.policy_ns.build_path(&c.slots, "."),
        Some("policy_1".to_owned())
    );
}
