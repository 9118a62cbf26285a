use a2x::collection::AlfaFile;
use a2x::context::{Config, Context};
use a2x::tree::alfa_compile;
use a2x::xacml::XTopPolicy;

fn compile_alfa_src(src: &str) -> Vec<XTopPolicy> {
    let sources = vec![AlfaFile {
        filename: String::new(),
        contents: src.to_owned(),
    }];
    let mut ctx = Context::new(Config::default()).expect("a context");
    alfa_compile(&mut ctx, &sources).expect("compile failed")
}


fn xentry_to_str(p: &XTopPolicy) -> String {
    String::from_utf8(p.to_xml().expect("unable to write")).expect("can't convert to utf8")
}

/// End-to-End ALFA-to-XACML test
#[test]
fn recursive_policyset() {
    // two policies that recursively reference each other.
    let e2e = compile_alfa_src(
        r#"
namespace foo {
  policyset one = "one" {
    apply firstApplicable
    two
  }
  policyset two = "two" {
    apply firstApplicable
    one
  }
}
"#,
    );
    let xp = e2e.first().expect("there is at least one policyset");
    let xacml = xentry_to_str(xp);
    assert_eq!(
        xacml,
        r#"<?xml version="1.0" encoding="UTF-8"?>
<xacml3:PolicySet xmlns:xacml3="urn:oasis:names:tc:xacml:3.0:core:schema:wd-17" PolicySetId="one" PolicyCombiningAlgId="urn:oasis:names:tc:xacml:1.0:policy-combining-algorithm:first-applicable" Version="1.0">
  <xacml3:Target />
  <xacml3:PolicySetIdReference>two</xacml3:PolicySetIdReference>
</xacml3:PolicySet>"#
    );
}
