use a2x::collection::AlfaFile;
use a2x::context::{Config, Context};
use a2x::tree::alfa_compile;
use a2x::xacml::XTopPolicy;
use a2x::xacml::xpolicy::XPolicy;

fn compile_alfa_src(src: &str) -> Vec<XTopPolicy> {
    let sources = vec![AlfaFile {
        filename: String::new(),
        contents: src.to_owned(),
    }];
    let mut ctx = Context::new(Config::default()).expect("a context");
    alfa_compile(&mut ctx, &sources).expect("compile failed")
}


fn get_nth_policy(n: usize, policies: Vec<XTopPolicy>) -> XPolicy {
    assert!(policies.len() > n, "There were not {n} policies");
    match policies.into_iter().nth(n).unwrap() {
        XTopPolicy::Policy(p) => p,
        XTopPolicy::PolicySet(_) => panic!("Expected Policy"),
    }
}


// Integration tests for policy obligations.
//
// This primarily handles sections 4.15 (obligations and advice) of
// alfa-for-xacml-v1.0-csd01

// Here we focus on the obligations.

/// Simple Obligation
#[test]
fn policy_obligation_simple_obligation() {
    let x = compile_alfa_src(
        r#"
namespace main {
  obligation o1 = "urn:example:oblig"
  policy p {
    apply firstApplicable
    rule {
      permit
    }
    on permit {
      obligation o1
    }
  }
}
"#,
    );
    // there will be a single policy container returned.
    assert_eq!(x.len(), 1);
}

/// Complex Obligations
#[test]
fn policy_obligation_complex_obligation() {
    // Simple rule with a target, outside a policy.  Compiles, but
    // will not be serialized without a policy that uses it.
    let x = compile_alfa_src(
        r#"
namespace main {
  obligation o1 = "urn:example:oblig"
  policy p {
    apply firstApplicable
    rule {
      permit
    }
    on permit {
      obligation o1 {
        actionId = "foo"
        resourceId = resourceLocation[mustbepresent issuer="bar"]
      }
    }
  }
}
"#,
    );
    // there will be a single policy container returned.
    assert_eq!(x.len(), 1);
    let p = get_nth_policy(0, x);
    let expressions = p.prescriptions.exprs;
    // there should be an obligation expression
    assert_eq!(expressions.len(), 1);
}
