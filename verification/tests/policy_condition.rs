use a2x::collection::AlfaFile;
use a2x::context::{Config, Context};
use a2x::tree::alfa_compile;
use a2x::xacml::XTopPolicy;
use a2x::xacml::xpolicyentry::XPolicyEntry;
use a2x::xacml::xpolicyset::XPolicySet;

fn compile_alfa_src(src: &str) -> Vec<XTopPolicy> {
    let sources = vec![AlfaFile {
        filename: String::new(),
        contents: src.to_owned(),
    }];
    let mut ctx = Context::new(Config::default()).expect("a context");
    alfa_compile(&mut ctx, &sources).expect("compile failed")
}


fn get_nth_policyset(n: usize, policies: Vec<XTopPolicy>) -> XPolicySet {
    assert!(policies.len() > n, "There were not {n} policies");
    match policies.into_iter().nth(n).unwrap() {
        XTopPolicy::PolicySet(ps) => ps,
        XTopPolicy::Policy(_) => panic!("Expected PolicySet"),
    }
}


//use common::get_nth_policy;

// Integration tests for conditions inside rules
//
// This primarily handles sections 4.11 (conditions) of
// alfa-for-xacml-v1.0-csd01

// Here we focus on policies that have conditions.

#[test]
fn policy_condition() {
    let x = compile_alfa_src(
        r#"
namespace main {
  policy c = "foo-ID" {
    apply firstApplicable
    target clause resourceId == "res-test"
    condition subjectId == "sub-test"
    rule {
      deny
    }
  }
}
"#,
    );
    // should have 1 policy file result
    assert_eq!(x.len(), 1);
    let p = get_nth_policyset(0, x);
    // the top level combining alg should be on-permit-apply-second
    assert_eq!(
        p.combining_alg,
        "urn:oasis:names:tc:xacml:3.0:policy-combining-algorithm:on-permit-apply-second"
    );
    // the name of the container policy should be the same as the original ALFA one.
    assert_eq!(p.id, "foo-ID", "ID matches ALFA");
    // expect two child policies
    assert_eq!(p.children.len(), 2);
    // first policy is for holding the rule with a condition
    let cond_policy_ent = p.children.first().expect("conditional policy exists");
    let XPolicyEntry::Policy(cond_policy) = cond_policy_ent else {
        panic!("Expected a Policy")
    };
    // cond policy name is now the parent + "cond"
    assert_eq!(
        cond_policy.id,
        "https://sr.ht/~gheartsfield/a2x/alfa/ident/main/c/cond"
    );

    // condition policy uses combining algorithm permit-overrides
    assert_eq!(
        cond_policy.combining_alg,
        "urn:oasis:names:tc:xacml:3.0:rule-combining-algorithm:permit-overrides"
    );
    // Policy contains a rule, with effect permit
    let cond_rule = cond_policy
        .rules
        .first()
        .expect("conditional policy contains a rule");
    // Rule effect
    assert_eq!(
        cond_rule.effect, "Permit",
        "conditional policy effect is permit"
    );
    assert_eq!(cond_rule.target.anyofs.len(), 0, "Target should be empty");
    // first policy is for holding the rule with a condition
    let orig_policy_ent = p.children.get(1).expect("conditional policy exists");
    // second policy
    let XPolicyEntry::Policy(orig_policy) = orig_policy_ent else {
        panic!("Expected a Policy")
    };
    // original policy name is now the parent + "orig"
    assert_eq!(
        orig_policy.id,
        "https://sr.ht/~gheartsfield/a2x/alfa/ident/main/c/orig"
    );
    // the original policy uses whatever we specified in the ALFA definition.
    assert_eq!(
        orig_policy.combining_alg,
        "urn:oasis:names:tc:xacml:1.0:rule-combining-algorithm:first-applicable"
    );
    // Our target is present
    assert_eq!(
        orig_policy.target.anyofs.len(),
        1,
        "Target should not be empty"
    );
    // Original rule is present, with effect
    let orig_rule = orig_policy.rules.first().expect("original policy has rule");
    assert_eq!(
        orig_rule.effect, "Deny",
        "original policy effect is preserved"
    );
}
