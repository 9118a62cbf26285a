use a2x::ast::advice::AdviceDef;
use a2x::ast::constant::Constant;
use a2x::ast::designator::AttributeDesignator;
use a2x::ast::naming::GenName;
use a2x::ast::obligation::ObligationDef;
use a2x::ast::policy::{Policy, PolicyId, RuleCombiningAlgorithm};
use a2x::ast::policyset::{PolicyCombiningAlgorithm, PolicyEntry, PolicyReference, PolicySet};
use a2x::ast::prescription::{
    AttrAssignmentSource, AttributeAssignment, Prescription, PrescriptionExpr, PrescriptionType,
};
use a2x::ast::rule::Effect;
use a2x::context::{Config, Context, TypedLiteral};
use a2x::errors::{ErrorKind, SrcLoc};
use a2x::text::text_less;
use a2x::xacml::xattr_designator::XAttrDesignator;
use a2x::xacml::xprescription::{
    XAttrValue, XAttributeAssignment, XAttributeAssignmentArgument, XPrescriptionByType,
    XPrescriptionExpr, XPrescriptions,
};

const SUBJECT_CAT: &str = "urn:oasis:names:tc:xacml:1.0:subject-category:access-subject";
const RESOURCE_CAT: &str = "urn:oasis:names:tc:xacml:3.0:attribute-category:resource";
const STRING: &str = "http://www.w3.org/2001/XMLSchema#string";

fn ns(parts: &[&str]) -> Vec<String> {
    parts.iter().map(|s| s.to_string()).collect()
}

fn ctx() -> Context {
    let mut c = Context::new(Config::default()).unwrap();
    c.register_advice(AdviceDef {
        id: "notify".to_owned(),
        uri: "urn:advice:notify".to_owned(),
        ns: ns(&["main"]),
    })
    .unwrap();
    c.register_obligation(ObligationDef {
        id: "log".to_owned(),
        uri: "urn:obligation:log".to_owned(),
        ns: ns(&["main"]),
    })
    .unwrap();
    c
}

fn statement(ptype: PrescriptionType, id: &str, assignments: Vec<AttributeAssignment>) -> PrescriptionExpr {
    PrescriptionExpr {
        ptype,
        id: id.to_owned(),
        assignments,
    }
}

#[test]
fn a_block_of_obligations_and_advice() {
    let c = ctx();
    let blocks = vec![
        Prescription {
            effect: Effect::Permit,
            ns: ns(&["main"]),
            expressions: vec![
                statement(
                    PrescriptionType::Advice,
                    "notify",
                    vec![AttributeAssignment {
                        destination_id: "subjectId".to_owned(),
                        source: AttrAssignmentSource::Value(Constant::String("bob".to_owned())),
                    }],
                ),
                statement(
                    PrescriptionType::Obligation,
                    "log",
                    vec![AttributeAssignment {
                        destination_id: "subjectId".to_owned(),
                        source: AttrAssignmentSource::Attribute(AttributeDesignator {
                            attribute: ns(&["resourceId"]),
                            issuer: Some("me".to_owned()),
                            mustbepresent: true,
                        }),
                    }],
                ),
            ],
        },
        Prescription {
            effect: Effect::Deny,
            ns: ns(&["main"]),
            expressions: vec![statement(PrescriptionType::Advice, "main.notify", vec![])],
        },
    ];
    let x = XPrescriptions::try_from(&blocks, &c).unwrap();
    let first = XPrescriptionExpr {
        ptype: PrescriptionType::Advice,
        id: "urn:advice:notify".to_owned(),
        fulfill_on: Effect::Permit,
        assignments: vec![XAttributeAssignment {
            id: "urn:oasis:names:tc:xacml:1.0:subject:subject-id".to_owned(),
            category: SUBJECT_CAT.to_owned(),
            arg: XAttributeAssignmentArgument::Value(XAttrValue {
                v: TypedLiteral {
                    type_uri: STRING.to_owned(),
                    value: "bob".to_owned(),
                },
            }),
        }],
    };
    let second = XPrescriptionExpr {
        ptype: PrescriptionType::Obligation,
        id: "urn:obligation:log".to_owned(),
        fulfill_on: Effect::Permit,
        assignments: vec![XAttributeAssignment {
            id: "urn:oasis:names:tc:xacml:1.0:subject:subject-id".to_owned(),
            category: SUBJECT_CAT.to_owned(),
            arg: XAttributeAssignmentArgument::Attrib(XAttrDesignator {
                uri: "urn:oasis:names:tc:xacml:1.0:resource:resource-id".to_owned(),
                category: RESOURCE_CAT.to_owned(),
                type_uri: STRING.to_owned(),
                must_be_present: true,
                issuer: Some("me".to_owned()),
            }),
        }],
    };
    let third = XPrescriptionExpr {
        ptype: PrescriptionType::Advice,
        id: "urn:advice:notify".to_owned(),
        fulfill_on: Effect::Deny,
        assignments: vec![],
    };
    assert_eq!(
        x,
        XPrescriptions {
            exprs: vec![first.clone(), second.clone(), third.clone()]
        }
    );
    let parted = XPrescriptionByType::from(x);
    assert_eq!(parted.obligations, vec![second]);
    assert_eq!(parted.associated_advice, vec![first, third]);
}

#[test]
fn prescriptions_that_are_refused() {
    let c = ctx();
    let one = |e: PrescriptionExpr| {
        vec![Prescription {
            effect: Effect::Permit,
            ns: ns(&["main"]),
            expressions: vec![e],
        }]
    };
    // an advice is no obligation
    let r = XPrescriptions::try_from(&one(statement(PrescriptionType::Obligation, "notify", vec![])), &c);
    assert_eq!(r.unwrap_err().kind(), ErrorKind::SymbolNotFound);
    let r = XPrescriptions::try_from(
        &one(statement(
            PrescriptionType::Advice,
            "notify",
            vec![AttributeAssignment {
                destination_id: "noSuchAttribute".to_owned(),
                source: AttrAssignmentSource::Value(Constant::Boolean(true)),
            }],
        )),
        &c,
    );
    assert_eq!(r.unwrap_err().kind(), ErrorKind::SymbolNotFound);
    let r = XPrescriptions::try_from(
        &one(statement(
            PrescriptionType::Advice,
            "notify",
            vec![AttributeAssignment {
                destination_id: "subjectId".to_owned(),
                source: AttrAssignmentSource::Value(Constant::Undefined),
            }],
        )),
        &c,
    );
    assert!(r.is_err());
    assert_eq!(
        XPrescriptions::try_from(&vec![], &c),
        Ok(XPrescriptions { exprs: vec![] })
    );
}

fn member_at(path: GenName) -> Policy {
    Policy {
        id: PolicyId::PolicyNoName,
        ns: ns(&["main"]),
        policy_ns: path,
        src_loc: SrcLoc::default(),
        description: None,
        target: None,
        condition: None,
        apply: RuleCombiningAlgorithm {
            id: "firstApplicable".to_owned(),
            src_loc: SrcLoc::default(),
        },
        rules: vec![],
        prescriptions: vec![],
    }
}

#[test]
fn name_paths_that_are_nested() {
    let mut c = ctx();
    let outer = c.slots.new_slot(Some("outer".to_owned()));
    let inner = c.slots.new_slot(None);
    let mut outer_path = GenName::default();
    outer_path.push_name(outer);
    let mut inner_path = outer_path.clone();
    inner_path.push_name(inner);
    let member = member_at(inner_path.clone());
    assert!(member.is_well_formed());
    let mut set = PolicySet {
        id: PolicyId::PolicyName("outer".to_owned()),
        ns: ns(&["main"]),
        policy_ns: outer_path.clone(),
        src_loc: SrcLoc::default(),
        description: None,
        target: None,
        condition: None,
        apply: PolicyCombiningAlgorithm {
            id: "denyOverrides".to_owned(),
            src_loc: SrcLoc::default(),
        },
        policies: vec![
            PolicyEntry::Ref(PolicyReference {
                id: "x".to_owned(),
                ns: vec![],
            }),
            PolicyEntry::Policy(member_at(inner_path)),
        ],
        prescriptions: vec![],
    };
    assert!(set.is_well_formed());
    // a member whose path is no longer than the set's
    let flat = member_at(outer_path);
    assert!(flat.is_well_formed());
    set.policies.push(PolicyEntry::Policy(flat));
    assert!(!set.is_well_formed());
    set.policies.pop();
    set.policy_ns = GenName::default();
    assert!(!set.is_well_formed());
    let mut pathless = member;
    pathless.policy_ns = GenName::default();
    assert!(!pathless.is_well_formed());
}

#[test]
fn the_order_of_strings() {
    assert!(text_less("a", "b"));
    assert!(!text_less("b", "a"));
    assert!(text_less("", "a"));
    assert!(!text_less("", ""));
    assert!(!text_less("abc", "abc"));
    assert!(text_less("ab", "abc"));
    assert!(!text_less("abc", "ab"));
    assert!(text_less("Z", "a"));
    assert!(text_less("abd", "abea"));
    for (a, b) in [("x.y", "x.z"), ("_A2X.<", "_A2X.<="), ("é", "z"), ("z", "é")] {
        assert_eq!(text_less(a, b), a < b);
    }
}
