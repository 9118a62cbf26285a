use a2x::ast::prescription::PrescriptionType;
use a2x::ast::rule::Effect;
use a2x::collection::write_xentry;
use a2x::context::TypedLiteral;
use a2x::errors::ParseError;
use a2x::xacml::document::{render, XacmlWriter, XmlPiece};
use a2x::xacml::xapply::XApply;
use a2x::xacml::xattr_designator::XAttrDesignator;
use a2x::xacml::xcondition::{FunctionTypeResolved, ResolvedAtomicName, XCondition};
use a2x::xacml::xexpression::XExpression;
use a2x::xacml::xfunction::XFunction;
use a2x::xacml::xpolicy::XPolicy;
use a2x::xacml::xpolicyentry::XPolicyEntry;
use a2x::xacml::xpolicyset::XPolicySet;
use a2x::xacml::xprescription::{
    XAttrValue, XAttributeAssignment, XAttributeAssignmentArgument, XPrescriptionExpr,
    XPrescriptions,
};
use a2x::xacml::xrule::XRule;
use a2x::xacml::xtarget::{AllOf, AnyOf, XMatch, XTarget};
use a2x::xacml::XTopPolicy;

const NS: &str = "urn:oasis:names:tc:xacml:3.0:core:schema:wd-17";

fn start(name: &str, attributes: &[(&str, &str)]) -> XmlPiece {
    XmlPiece::Start {
        name: name.to_owned(),
        attributes: attributes
            .iter()
            .map(|(k, v)| (k.to_string(), v.to_string()))
            .collect(),
        namespaces: vec![],
    }
}

fn root(name: &str, attributes: &[(&str, &str)]) -> XmlPiece {
    XmlPiece::Start {
        name: name.to_owned(),
        attributes: attributes
            .iter()
            .map(|(k, v)| (k.to_string(), v.to_string()))
            .collect(),
        namespaces: vec![("xacml3".to_owned(), NS.to_owned())],
    }
}

fn text(t: &str) -> XmlPiece {
    XmlPiece::Text(t.to_owned())
}

fn designator(issuer: Option<&str>) -> XAttrDesignator {
    XAttrDesignator {
        uri: "urn:attr".to_owned(),
        category: "urn:cat".to_owned(),
        type_uri: "urn:string".to_owned(),
        must_be_present: true,
        issuer: issuer.map(|s| s.to_owned()),
    }
}

fn value(v: &str) -> XAttrValue {
    XAttrValue {
        v: TypedLiteral {
            type_uri: "urn:integer".to_owned(),
            value: v.to_owned(),
        },
    }
}

fn a_match(issuer: Option<&str>) -> XMatch {
    XMatch {
        matchid: "urn:equal".to_owned(),
        value: "admin".to_owned(),
        value_type: "urn:string".to_owned(),
        designator_id: "urn:role".to_owned(),
        designator_category: "urn:subject".to_owned(),
        designator_type: "urn:string".to_owned(),
        must_be_present: false,
        issuer: issuer.map(|s| s.to_owned()),
    }
}

fn prescription(ptype: PrescriptionType, id: &str, on: Effect) -> XPrescriptionExpr {
    XPrescriptionExpr {
        ptype,
        id: id.to_owned(),
        fulfill_on: on,
        assignments: vec![],
    }
}

fn rule() -> XRule {
    XRule {
        id: "urn:rule".to_owned(),
        description: None,
        effect: "Permit".to_owned(),
        target: XTarget { anyofs: vec![] },
        condition: None,
        prescriptions: XPrescriptions { exprs: vec![] },
    }
}

fn policy() -> XPolicy {
    XPolicy {
        id: "urn:p".to_owned(),
        filename: Some("main.p.xml".to_owned()),
        combining_alg: "urn:first".to_owned(),
        description: Some("a < b & c".to_owned()),
        target: XTarget { anyofs: vec![] },
        prescriptions: XPrescriptions { exprs: vec![] },
        rules: vec![rule()],
    }
}

#[test]
fn the_pieces_of_a_match() {
    let mut out = vec![text("before")];
    a_match(Some("me")).write_xml(&mut out);
    assert_eq!(
        out,
        vec![
            text("before"),
            start("xacml3:Match", &[("MatchId", "urn:equal")]),
            start("xacml3:AttributeValue", &[("DataType", "urn:string")]),
            text("admin"),
            XmlPiece::End,
            start(
                "xacml3:AttributeDesignator",
                &[
                    ("AttributeId", "urn:role"),
                    ("Category", "urn:subject"),
                    ("DataType", "urn:string"),
                    ("MustBePresent", "false"),
                    ("Issuer", "me"),
                ]
            ),
            XmlPiece::End,
            XmlPiece::End,
        ]
    );
    let mut out = vec![];
    a_match(None).write_xml(&mut out);
    assert_eq!(
        out[4],
        start(
            "xacml3:AttributeDesignator",
            &[
                ("AttributeId", "urn:role"),
                ("Category", "urn:subject"),
                ("DataType", "urn:string"),
                ("MustBePresent", "false"),
            ]
        )
    );
}

#[test]
fn the_pieces_of_a_target() {
    let t = XTarget {
        anyofs: vec![
            AnyOf {
                allofs: vec![
                    AllOf {
                        matches: vec![a_match(None)],
                    },
                    AllOf { matches: vec![] },
                ],
            },
            AnyOf { allofs: vec![] },
        ],
    };
    let mut out = vec![];
    t.write_xml(&mut out);
    let mut one = vec![];
    a_match(None).write_xml(&mut one);
    let mut expected = vec![
        start("xacml3:Target", &[]),
        start("xacml3:AnyOf", &[]),
        start("xacml3:AllOf", &[]),
    ];
    expected.extend(one);
    expected.extend(vec![
        XmlPiece::End,
        start("xacml3:AllOf", &[]),
        XmlPiece::End,
        XmlPiece::End,
        start("xacml3:AnyOf", &[]),
        XmlPiece::End,
        XmlPiece::End,
    ]);
    assert_eq!(out, expected);
    let mut out = vec![];
    XTarget { anyofs: vec![] }.write_xml(&mut out);
    assert_eq!(out, vec![start("xacml3:Target", &[]), XmlPiece::End]);
}

#[test]
fn the_pieces_of_an_expression() {
    let e = XExpression::Apply(XApply {
        function_uri: "urn:and".to_owned(),
        arguments: vec![
            XExpression::Value(value("1")),
            XExpression::Attrib(designator(Some("me"))),
            XExpression::Function(XFunction {
                function_uri: "urn:f".to_owned(),
            }),
            XExpression::Apply(XApply {
                function_uri: "urn:not".to_owned(),
                arguments: vec![],
                return_type: FunctionTypeResolved::AnyAtomic,
            }),
        ],
        return_type: FunctionTypeResolved::Atomic(ResolvedAtomicName {
            uri: "urn:boolean".to_owned(),
        }),
    });
    let mut out = vec![];
    XCondition { expr: e }.write_xml(&mut out);
    assert_eq!(
        out,
        vec![
            start("xacml3:Condition", &[]),
            start("xacml3:Apply", &[("FunctionId", "urn:and")]),
            start("xacml3:AttributeValue", &[("DataType", "urn:integer")]),
            text("1"),
            XmlPiece::End,
            start(
                "xacml3:AttributeDesignator",
                &[
                    ("AttributeId", "urn:attr"),
                    ("Category", "urn:cat"),
                    ("DataType", "urn:string"),
                    ("Issuer", "me"),
                    ("MustBePresent", "true"),
                ]
            ),
            XmlPiece::End,
            start("xacml3:Function", &[("FunctionId", "urn:f")]),
            XmlPiece::End,
            start("xacml3:Apply", &[("FunctionId", "urn:not")]),
            XmlPiece::End,
            XmlPiece::End,
            XmlPiece::End,
        ]
    );
}

#[test]
fn obligations_come_before_advice() {
    let mut with_assignment = prescription(PrescriptionType::Obligation, "urn:log", Effect::Deny);
    with_assignment.assignments = vec![
        XAttributeAssignment {
            id: "urn:a".to_owned(),
            category: "urn:c".to_owned(),
            arg: XAttributeAssignmentArgument::Value(value("7")),
        },
        XAttributeAssignment {
            id: "urn:b".to_owned(),
            category: "urn:c".to_owned(),
            arg: XAttributeAssignmentArgument::Attrib(designator(None)),
        },
    ];
    let p = XPrescriptions {
        exprs: vec![
            prescription(PrescriptionType::Advice, "urn:first", Effect::Permit),
            with_assignment,
            prescription(PrescriptionType::Advice, "urn:second", Effect::Deny),
        ],
    };
    let mut out = vec![];
    p.write_xml(&mut out);
    assert_eq!(
        out,
        vec![
            start("xacml3:ObligationExpressions", &[]),
            start(
                "xacml3:ObligationExpression",
                &[("ObligationId", "urn:log"), ("FulfillOn", "Deny")]
            ),
            start(
                "xacml3:AttributeAssignmentExpression",
                &[("AttributeId", "urn:a"), ("Category", "urn:c")]
            ),
            start("xacml3:AttributeValue", &[("DataType", "urn:integer")]),
            text("7"),
            XmlPiece::End,
            XmlPiece::End,
            start(
                "xacml3:AttributeAssignmentExpression",
                &[("AttributeId", "urn:b"), ("Category", "urn:c")]
            ),
            start(
                "xacml3:AttributeDesignator",
                &[
                    ("AttributeId", "urn:attr"),
                    ("Category", "urn:cat"),
                    ("DataType", "urn:string"),
                    ("MustBePresent", "true"),
                ]
            ),
            XmlPiece::End,
            XmlPiece::End,
            XmlPiece::End,
            XmlPiece::End,
            start("xacml3:AdviceExpressions", &[]),
            start(
                "xacml3:AdviceExpression",
                &[("AdviceId", "urn:first"), ("AppliesTo", "Permit")]
            ),
            XmlPiece::End,
            start(
                "xacml3:AdviceExpression",
                &[("AdviceId", "urn:second"), ("AppliesTo", "Deny")]
            ),
            XmlPiece::End,
            XmlPiece::End,
        ]
    );
    // a kind without members is left out
    let only_advice = XPrescriptions {
        exprs: vec![prescription(PrescriptionType::Advice, "urn:x", Effect::Permit)],
    };
    let mut out = vec![];
    only_advice.write_xml(&mut out);
    assert_eq!(out[0], start("xacml3:AdviceExpressions", &[]));
    assert_eq!(out.len(), 4);
    let mut out = vec![];
    XPrescriptions { exprs: vec![] }.write_xml(&mut out);
    assert!(out.is_empty());
}

#[test]
fn the_pieces_of_a_policy_and_a_policy_set() {
    let pieces = XTopPolicy::Policy(policy()).xml_pieces();
    let policy_pieces = vec![
        root(
            "xacml3:Policy",
            &[
                ("PolicyId", "urn:p"),
                ("RuleCombiningAlgId", "urn:first"),
                ("Version", "1.0"),
            ],
        ),
        start("xacml3:Description", &[]),
        text("a < b & c"),
        XmlPiece::End,
        start("xacml3:Target", &[]),
        XmlPiece::End,
        start("xacml3:Rule", &[("Effect", "Permit"), ("RuleId", "urn:rule")]),
        start("xacml3:Target", &[]),
        XmlPiece::End,
        XmlPiece::End,
        XmlPiece::End,
    ];
    assert_eq!(pieces, policy_pieces);
    let inner = XPolicySet {
        id: "urn:inner".to_owned(),
        filename: None,
        combining_alg: "urn:deny".to_owned(),
        description: None,
        target: XTarget { anyofs: vec![] },
        prescriptions: XPrescriptions { exprs: vec![] },
        children: vec![XPolicyEntry::Policy(policy())],
    };
    let set = XPolicySet {
        id: "urn:set".to_owned(),
        filename: Some("main.set.xml".to_owned()),
        combining_alg: "urn:deny".to_owned(),
        description: None,
        target: XTarget { anyofs: vec![] },
        prescriptions: XPrescriptions {
            exprs: vec![prescription(PrescriptionType::Advice, "urn:x", Effect::Permit)],
        },
        children: vec![
            XPolicyEntry::PolicyIdRef("urn:other".to_owned()),
            XPolicyEntry::PolicySet(inner),
            XPolicyEntry::PolicySetIdRef("urn:others".to_owned()),
        ],
    };
    let mut expected = vec![
        root(
            "xacml3:PolicySet",
            &[
                ("PolicySetId", "urn:set"),
                ("PolicyCombiningAlgId", "urn:deny"),
                ("Version", "1.0"),
            ],
        ),
        start("xacml3:Target", &[]),
        XmlPiece::End,
        start("xacml3:PolicyIdReference", &[]),
        text("urn:other"),
        XmlPiece::End,
        root(
            "xacml3:PolicySet",
            &[
                ("PolicySetId", "urn:inner"),
                ("PolicyCombiningAlgId", "urn:deny"),
                ("Version", "1.0"),
            ],
        ),
        start("xacml3:Target", &[]),
        XmlPiece::End,
    ];
    expected.extend(policy_pieces);
    expected.extend(vec![
        XmlPiece::End,
        start("xacml3:PolicySetIdReference", &[]),
        text("urn:others"),
        XmlPiece::End,
        start("xacml3:AdviceExpressions", &[]),
        start(
            "xacml3:AdviceExpression",
            &[("AdviceId", "urn:x"), ("AppliesTo", "Permit")],
        ),
        XmlPiece::End,
        XmlPiece::End,
        XmlPiece::End,
    ]);
    assert_eq!(XTopPolicy::PolicySet(set).xml_pieces(), expected);
}

#[test]
fn a_policy_as_xml_text() {
    let bytes = XTopPolicy::Policy(policy()).to_xml().unwrap();
    let expected = [
        "<?xml version=\"1.0\" encoding=\"UTF-8\"?>\n",
        "<xacml3:Policy xmlns:xacml3=\"urn:oasis:names:tc:xacml:3.0:core:schema:wd-17\" PolicyId=\"urn:p\" RuleCombiningAlgId=\"urn:first\" Version=\"1.0\">\n",
        "  <xacml3:Description>a &lt; b &amp; c</xacml3:Description>\n",
        "  <xacml3:Target />\n",
        "  <xacml3:Rule Effect=\"Permit\" RuleId=\"urn:rule\">\n",
        "    <xacml3:Target />\n",
        "  </xacml3:Rule>\n",
        "</xacml3:Policy>",
    ]
    .concat();
    assert_eq!(String::from_utf8(bytes).unwrap(), expected);
}

#[test]
fn pieces_as_xml_text() {
    let pieces = vec![
        start("a", &[("k", "v\"w")]),
        start("b", &[]),
        XmlPiece::End,
        text("t"),
        XmlPiece::End,
    ];
    let bytes = render(&pieces).unwrap();
    let shown = String::from_utf8(bytes).unwrap();
    assert!(shown.starts_with("<?xml version=\"1.0\" encoding=\"UTF-8\"?>\n<a k=\"v&quot;w\">"));
    assert!(shown.ends_with("t</a>"));
    // an end tag with nothing open is refused
    assert_eq!(render(&vec![XmlPiece::End]), Err(ParseError::XacmlWriteIoError));
    assert_eq!(
        render(&vec![start("a", &[]), XmlPiece::End, XmlPiece::End]),
        Err(ParseError::XacmlWriteIoError)
    );
    let nothing = render(&vec![]).unwrap();
    assert!(nothing.is_empty());
}

#[test]
fn a_file_for_a_policy() {
    let top = XTopPolicy::Policy(policy());
    let file = write_xentry(&top).unwrap();
    assert_eq!(file.filename, "main.p.xml");
    assert_eq!(file.contents, top.to_xml().unwrap());
    let mut nameless = policy();
    nameless.filename = None;
    assert_eq!(
        write_xentry(&XTopPolicy::Policy(nameless)),
        Err(ParseError::XacmlMissingFilename)
    );
}

#[test]
fn a_document_element_writes_its_pieces() {
    let mut out = vec![];
    XacmlWriter::write_xml(&policy(), &mut out);
    assert_eq!(out, XTopPolicy::Policy(policy()).xml_pieces());
    let set = XPolicySet {
        id: "urn:set".to_owned(),
        filename: None,
        combining_alg: "urn:deny".to_owned(),
        description: Some("d".to_owned()),
        target: XTarget { anyofs: vec![] },
        prescriptions: XPrescriptions { exprs: vec![] },
        children: vec![],
    };
    let mut out = vec![];
    XacmlWriter::write_xml(&set, &mut out);
    assert_eq!(out.len(), 7);
    assert_eq!(out[2], text("d"));
}
