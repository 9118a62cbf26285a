use a2x::ast::assemble::{InfixPart, PolicySetStatement, PolicyStatement, RuleStatement};
use a2x::ast::condition::{CondExpression, Condition};
use a2x::ast::constant::Constant;
use a2x::ast::infix::{Infix, InfixSignature};
use a2x::ast::naming::GenName;
use a2x::ast::policy::{Policy, PolicyId};
use a2x::ast::policyset::{PolicyEntry, PolicyReference, PolicySet};
use a2x::ast::prescription::Prescription;
use a2x::ast::rule::{Effect, RuleDef, RuleEntry, RuleReference};
use a2x::ast::target::Target;
use a2x::errors::{ErrorKind, ParseError, SrcLoc};

fn sig() -> InfixSignature {
    InfixSignature {
        uri: "urn:lt".to_owned(),
        first_arg: "integer".to_owned(),
        second_arg: "integer".to_owned(),
        output: "boolean".to_owned(),
    }
}

fn cond(v: bool) -> Condition {
    Condition {
        cond_expr: CondExpression::Lit(Constant::Boolean(v)),
        ns: vec![],
        src_loc: SrcLoc::default(),
    }
}

fn target(ns: &str) -> Target {
    Target {
        clauses: vec![],
        ns: vec![ns.to_owned()],
    }
}

fn block(effect: Effect) -> Prescription {
    Prescription {
        effect,
        ns: vec![],
        expressions: vec![],
    }
}

#[test]
fn an_infix_declaration() {
    let parts = vec![
        InfixPart::AllowBags,
        InfixPart::Operator("<".to_owned()),
        InfixPart::Signature(sig()),
        InfixPart::Signature(sig()),
        InfixPart::Inverse(">".to_owned()),
    ];
    assert_eq!(
        Infix::assemble(vec!["main".to_owned()], parts),
        Ok(Infix {
            operator: "<".to_owned(),
            allow_bags: true,
            commutative: false,
            signatures: vec![sig(), sig()],
            ns: vec!["main".to_owned()],
            inverse: Some(">".to_owned()),
        })
    );
    let plain = Infix::assemble(vec![], vec![InfixPart::Operator("+".to_owned())]).unwrap();
    assert!(!plain.allow_bags);
    assert!(!plain.commutative);
    assert_eq!(plain.inverse, None);
}

#[test]
fn infix_declarations_that_are_refused() {
    let twice = vec![
        InfixPart::Commutative,
        InfixPart::AllowBags,
        InfixPart::Commutative,
        InfixPart::Operator("+".to_owned()),
    ];
    assert_eq!(Infix::assemble(vec![], twice), Err(ParseError::DuplicateInfixModifier));
    let twice = vec![InfixPart::AllowBags, InfixPart::AllowBags];
    assert_eq!(Infix::assemble(vec![], twice), Err(ParseError::DuplicateInfixModifier));
    let both = vec![
        InfixPart::Commutative,
        InfixPart::Operator("==".to_owned()),
        InfixPart::Inverse("!=".to_owned()),
    ];
    assert_eq!(
        Infix::assemble(vec![], both),
        Err(ParseError::CommutativeWithInverseError)
    );
    assert_eq!(
        Infix::assemble(vec![], vec![InfixPart::Signature(sig())]),
        Err(ParseError::AstConvertError)
    );
    let two = vec![
        InfixPart::Operator("+".to_owned()),
        InfixPart::Operator("-".to_owned()),
    ];
    assert_eq!(Infix::assemble(vec![], two), Err(ParseError::AstConvertError));
}

#[test]
fn a_rule_from_its_statements() {
    let stmts = vec![
        RuleStatement::Prescription(block(Effect::Permit)),
        RuleStatement::Target(target("t")),
        RuleStatement::Effect(Effect::Deny),
        RuleStatement::Condition(cond(true)),
        RuleStatement::Prescription(block(Effect::Deny)),
    ];
    let r = RuleDef::assemble(
        Some("r".to_owned()),
        vec!["main".to_owned()],
        GenName::default(),
        Some("why".to_owned()),
        stmts,
    )
    .unwrap();
    assert_eq!(r.id, Some("r".to_owned()));
    assert_eq!(r.effect, Effect::Deny);
    assert_eq!(r.target, Some(target("t")));
    assert_eq!(r.condition, Some(cond(true)));
    assert_eq!(r.prescriptions, vec![block(Effect::Permit), block(Effect::Deny)]);
    assert_eq!(r.description, Some("why".to_owned()));
}

#[test]
fn rules_that_are_refused() {
    let make = |stmts| RuleDef::assemble(None, vec![], GenName::default(), None, stmts);
    assert_eq!(
        make(vec![
            RuleStatement::Effect(Effect::Permit),
            RuleStatement::Effect(Effect::Permit)
        ]),
        Err(ParseError::DuplicateRuleEffect)
    );
    assert_eq!(
        make(vec![
            RuleStatement::Target(target("a")),
            RuleStatement::Effect(Effect::Permit),
            RuleStatement::Target(target("b"))
        ]),
        Err(ParseError::DuplicateTarget)
    );
    assert_eq!(
        make(vec![
            RuleStatement::Condition(cond(true)),
            RuleStatement::Condition(cond(false)),
            RuleStatement::Effect(Effect::Permit),
            RuleStatement::Effect(Effect::Permit)
        ]),
        Err(ParseError::DuplicateCondition)
    );
    // no effect
    assert_eq!(
        make(vec![RuleStatement::Target(target("a"))]),
        Err(ParseError::AstConvertError)
    );
    assert_eq!(make(vec![]), Err(ParseError::AstConvertError));
}

#[test]
fn a_policy_from_its_statements() {
    let reference = RuleEntry::Ref(RuleReference {
        id: "r".to_owned(),
        ns: vec![],
        src_loc: SrcLoc::default(),
    });
    let stmts = vec![
        PolicyStatement::Apply("first".to_owned(), SrcLoc::new("p", 1, 2)),
        PolicyStatement::Rule(reference.clone()),
        PolicyStatement::Target(target("t")),
        PolicyStatement::Apply("second".to_owned(), SrcLoc::new("p", 3, 4)),
        PolicyStatement::Prescription(block(Effect::Permit)),
        PolicyStatement::Condition(cond(true)),
    ];
    let p = Policy::assemble(
        PolicyId::PolicyName("p".to_owned()),
        vec!["main".to_owned()],
        GenName::default(),
        SrcLoc::new("p", 0, 9),
        None,
        stmts,
    )
    .unwrap();
    // of several apply statements the last counts
    assert_eq!(p.apply.id, "second");
    assert_eq!(p.apply.src_loc, SrcLoc::new("p", 3, 4));
    assert_eq!(p.rules, vec![reference]);
    assert_eq!(p.target, Some(target("t")));
    assert_eq!(p.condition, Some(cond(true)));
    assert_eq!(p.prescriptions.len(), 1);
    assert_eq!(p.src_loc, SrcLoc::new("p", 0, 9));
}

#[test]
fn policies_that_are_refused() {
    let make = |stmts| {
        Policy::assemble(
            PolicyId::PolicyNoName,
            vec![],
            GenName::default(),
            SrcLoc::new("p.alfa", 5, 50),
            None,
            stmts,
        )
    };
    let err = make(vec![PolicyStatement::Target(target("t"))]).unwrap_err();
    assert_eq!(err.kind(), ErrorKind::MissingApplyStatement);
    assert_eq!(err.location(), Some(&SrcLoc::new("p.alfa", 5, 50)));
    assert_eq!(
        make(vec![
            PolicyStatement::Target(target("a")),
            PolicyStatement::Target(target("b")),
        ]),
        Err(ParseError::DuplicateTarget)
    );
    assert_eq!(
        make(vec![
            PolicyStatement::Apply("a".to_owned(), SrcLoc::default()),
            PolicyStatement::Condition(cond(true)),
            PolicyStatement::Condition(cond(true)),
        ]),
        Err(ParseError::DuplicateCondition)
    );
}

#[test]
fn a_policy_set_from_its_statements() {
    let reference = PolicyEntry::Ref(PolicyReference {
        id: "p".to_owned(),
        ns: vec!["lib".to_owned()],
    });
    let stmts = vec![
        PolicySetStatement::Target(target("a")),
        PolicySetStatement::Member(reference),
        PolicySetStatement::Apply("denyOverrides".to_owned(), SrcLoc::default()),
        PolicySetStatement::Target(target("b")),
    ];
    let ps = PolicySet::assemble(
        PolicyId::PolicyNoName,
        vec![],
        GenName::default(),
        SrcLoc::default(),
        Some("d".to_owned()),
        stmts,
    )
    .unwrap();
    // of several targets the last counts
    assert_eq!(ps.target, Some(target("b")));
    assert_eq!(ps.policies.len(), 1);
    assert_eq!(ps.apply.id, "denyOverrides");
    assert_eq!(ps.description, Some("d".to_owned()));
    let make = |stmts| {
        PolicySet::assemble(
            PolicyId::PolicyNoName,
            vec![],
            GenName::default(),
            SrcLoc::new("s.alfa", 1, 1),
            None,
            stmts,
        )
    };
    let err = make(vec![]).unwrap_err();
    assert_eq!(err.kind(), ErrorKind::MissingApplyStatement);
    assert_eq!(err.location(), Some(&SrcLoc::new("s.alfa", 1, 1)));
    assert_eq!(
        make(vec![
            PolicySetStatement::Condition(cond(true)),
            PolicySetStatement::Condition(cond(false)),
        ]),
        Err(ParseError::DuplicateCondition)
    );
}
