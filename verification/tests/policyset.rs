use a2x::collection::AlfaFile;
use a2x::context::{Config, Context};
use a2x::tree::alfa_compile;
use a2x::xacml::XTopPolicy;

fn compile_alfa_src(src: &str) -> Vec<XTopPolicy> {
    let sources = vec![AlfaFile {
        filename: String::new(),
        contents: src.to_owned(),
    }];
    let mut ctx = Context::new(Config::default()).expect("a context");
    alfa_compile(&mut ctx, &sources).expect("compile failed")
}


fn xentry_to_str(p: &XTopPolicy) -> String {
    String::from_utf8(p.to_xml().expect("unable to write")).expect("can't convert to utf8")
}

// Integration tests for policysets.
//
// This primarily handles sections 4.9 (policies) of
// alfa-for-xacml-v1.0-csd01

// This is mostly minimal policyset contents & naming, not
// conditions/targets/advice/etc.

/// End-to-End ALFA-to-XACML test
#[test]
fn xacml_policyset_simple() {
    let xpolicysets = compile_alfa_src(
        r#"
namespace foo {
  /** First PolicySet **/
  policyset master = "master-id" {
    apply firstApplicable
  }
}
"#,
    );
    let xp = xpolicysets.first().expect("there is at least one policyset");
    let xacml = xentry_to_str(xp);
    assert_eq!(
        xacml,
        r#"<?xml version="1.0" encoding="UTF-8"?>
<xacml3:PolicySet xmlns:xacml3="urn:oasis:names:tc:xacml:3.0:core:schema:wd-17" PolicySetId="master-id" PolicyCombiningAlgId="urn:oasis:names:tc:xacml:1.0:policy-combining-algorithm:first-applicable" Version="1.0">
  <xacml3:Description>First PolicySet</xacml3:Description>
  <xacml3:Target />
</xacml3:PolicySet>"#
    );
}

/// Policyset reference
#[test]
fn xacml_policyset_ref() {
    let xpolicysets = compile_alfa_src(
        r#"
namespace foo {
  /** Parent PolicySet **/
  policyset parent = "parent" {
    apply firstApplicable
    child
  }
  /** Child PolicySet **/
  policyset child = "child" {
    apply firstApplicable
  }
}
"#,
    );
    let xp = xpolicysets.first().expect("there is at least one policyset");
    let xacml = xentry_to_str(xp);
    assert_eq!(
        xacml,
        r#"<?xml version="1.0" encoding="UTF-8"?>
<xacml3:PolicySet xmlns:xacml3="urn:oasis:names:tc:xacml:3.0:core:schema:wd-17" PolicySetId="parent" PolicyCombiningAlgId="urn:oasis:names:tc:xacml:1.0:policy-combining-algorithm:first-applicable" Version="1.0">
  <xacml3:Description>Parent PolicySet</xacml3:Description>
  <xacml3:Target />
  <xacml3:PolicySetIdReference>child</xacml3:PolicySetIdReference>
</xacml3:PolicySet>"#
    );
}
