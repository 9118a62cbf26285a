use a2x::collection::AlfaFile;
use a2x::context::{Config, Context};
use a2x::tree::alfa_compile;
use a2x::xacml::XTopPolicy;

fn compile_alfa_src(src: &str) -> Vec<XTopPolicy> {
    let sources = vec![AlfaFile {
        filename: String::new(),
        contents: src.to_owned(),
    }];
    let mut ctx = Context::new(Config::default()).expect("a context");
    alfa_compile(&mut ctx, &sources).expect("compile failed")
}


// Integration tests for rule advice.
//
// This primarily handles sections 4.15 (obligations and advice) of
// alfa-for-xacml-v1.0-csd01

// Here we focus on the advice.

/// Simple Advice
#[test]
fn simple_advice() {
    let x = compile_alfa_src(
        r#"
namespace main {
  advice a1 = "urn:example:advice"
  policy p {
    apply firstApplicable
    rule {
      permit
      on permit {
        advice a1
      }
    }
  }
}
"#,
    );
    // there will be a single policy container returned.
    assert_eq!(x.len(), 1);
}

/// Complex Advice
#[test]
fn complex_advice() {
    let x = compile_alfa_src(
        r#"
namespace main {
  advice a1 = "urn:example:advice"
  policy p {
    apply firstApplicable
    rule {
      permit
      on permit {
        advice a1 {
          actionId = "foo"
          resourceId = resourceLocation[mustbepresent issuer="bar"]
        }
      }
    }
  }
}
"#,
    );
    // there will be a single policy container returned.
    assert_eq!(x.len(), 1);
}
