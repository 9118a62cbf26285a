use a2x::ast::condition::{CondExpression, CondFunctionCall, Condition, FunctionReference};
use a2x::ast::constant::Constant;
use a2x::ast::designator::AttributeDesignator;
use a2x::ast::naming::{GenName, NameSlots};
use a2x::ast::operator::Operator;
use a2x::ast::policy::{Policy, PolicyId, RuleCombiningAlgorithm};
use a2x::ast::policyset::{PolicyEntry, PolicyReference};
use a2x::ast::prescription::PrescriptionType;
use a2x::ast::rule::{Effect, RuleDef, RuleReference};
use a2x::ast::target::{ConjunctiveSeq, DisjunctiveSeq, Target};
use a2x::errors::SrcLoc;

fn lit(s: &str) -> CondExpression {
    CondExpression::Lit(Constant::Integer(s.to_owned()))
}

fn infix(a: CondExpression, o: &str, b: CondExpression) -> CondExpression {
    CondExpression::Infix(
        Box::new(a),
        Operator {
            ns: vec![],
            operator: o.to_owned(),
        },
        Box::new(b),
    )
}

fn condition(e: CondExpression) -> Condition {
    Condition {
        cond_expr: e,
        ns: vec![],
        src_loc: SrcLoc::default(),
    }
}

#[test]
fn conditions_as_text() {
    assert_eq!(
        condition(CondExpression::Lit(Constant::String("foo".to_owned()))).to_string(),
        "Condition: \"foo\""
    );
    assert_eq!(condition(lit("3")).to_string(), "Condition: 3");
    assert_eq!(
        condition(CondExpression::Lit(Constant::Double("3.99".to_owned()))).to_string(),
        "Condition: 3.99"
    );
    assert_eq!(
        condition(CondExpression::Lit(Constant::Boolean(true))).to_string(),
        "Condition: true"
    );
    assert_eq!(
        condition(infix(lit("3"), "+", lit("3"))).to_string(),
        "Condition: (3 + 3)"
    );
    assert_eq!(
        condition(infix(infix(lit("1"), "+", lit("2")), "+", lit("3"))).to_string(),
        "Condition: ((1 + 2) + 3)"
    );
    assert_eq!(
        condition(infix(lit("1"), "|", infix(lit("2"), "|", lit("3")))).to_string(),
        "Condition: (1 | (2 | 3))"
    );
    let call = CondExpression::Fn(CondFunctionCall {
        identifier: vec!["foo".to_owned()],
        arguments: vec![
            lit("1"),
            lit("2"),
            CondExpression::Lit(Constant::String("foo".to_owned())),
        ],
    });
    assert_eq!(condition(call).to_string(), "Condition: foo(1, 2, \"foo\")");
    let nested = CondExpression::Fn(CondFunctionCall {
        identifier: vec!["add".to_owned()],
        arguments: vec![
            lit("1"),
            CondExpression::Fn(CondFunctionCall {
                identifier: vec!["subtract".to_owned()],
                arguments: vec![lit("7"), lit("9")],
            }),
        ],
    });
    assert_eq!(nested.to_string(), "add(1, subtract(7, 9))");
    let reference = CondExpression::FnRef(FunctionReference {
        identifier: vec!["a".to_owned(), "f".to_owned()],
    });
    assert_eq!(reference.to_string(), "fn[a.f]");
    let designator = CondExpression::Attr(AttributeDesignator {
        attribute: vec!["a".to_owned()],
        issuer: None,
        mustbepresent: true,
    });
    assert_eq!(designator.to_string(), "a[mustbepresent]");
}

#[test]
fn policies_and_rules_as_text() {
    let mut slots = NameSlots::new();
    let slot = slots.new_slot(Some("p".to_owned()));
    let mut path = GenName::default();
    path.push_name(slot);
    let mut p = Policy {
        id: PolicyId::PolicyName("p".to_owned()),
        ns: vec!["main".to_owned(), "sub".to_owned()],
        policy_ns: path.clone(),
        src_loc: SrcLoc::default(),
        description: Some("what \"for\"".to_owned()),
        target: None,
        condition: None,
        apply: RuleCombiningAlgorithm {
            id: "firstApplicable".to_owned(),
            src_loc: SrcLoc::default(),
        },
        rules: vec![],
        prescriptions: vec![],
    };
    assert_eq!(
        p.to_string(),
        "Policy: \"main.sub.p\" (descr: Some(\"what \\\"for\\\"\")) (algorithm: firstApplicable)"
    );
    p.id = PolicyId::PolicyNoName;
    p.description = None;
    assert_eq!(
        p.to_string(),
        "Policy: \"main.sub ~ anonymous\" (descr: None) (algorithm: firstApplicable)"
    );
    let r = RuleDef {
        id: Some("r".to_owned()),
        ns: vec!["main".to_owned()],
        policy_ns: path,
        description: None,
        effect: Effect::Deny,
        target: None,
        condition: None,
        prescriptions: vec![],
    };
    assert_eq!(r.to_string(&slots), "Rule Def: Some(\"main.p.r\"), effect: Deny");
    let reference = RuleReference {
        id: "r".to_owned(),
        ns: vec!["lib".to_owned()],
        src_loc: SrcLoc::default(),
    };
    assert_eq!(reference.to_string(), "Rule Reference: Some(\"lib.r\")");
    assert_eq!(Effect::Permit.to_string(), "Permit");
    assert_eq!(PrescriptionType::Advice.to_string(), "Advice");
    assert_eq!(PrescriptionType::Obligation.to_string(), "Obligation");
    let entry = PolicyEntry::Ref(PolicyReference {
        id: "x".to_owned(),
        ns: vec![],
    });
    assert_eq!(entry.to_string(), "PE: policy ref: policy reference");
}

#[test]
fn targets_as_text() {
    let t = Target {
        clauses: vec![
            DisjunctiveSeq {
                statements: vec![ConjunctiveSeq { matches: vec![] }],
            },
            DisjunctiveSeq { statements: vec![] },
        ],
        ns: vec![],
    };
    assert_eq!(t.to_string(), "Target: 2 AnyOf");
    assert_eq!(t.clauses[0].to_string(), "AnyOf: 1 stmts");
    assert_eq!(t.clauses[0].statements[0].to_string(), "AllOf: 0 matches");
}
