use a2x::ast::attribute::Attribute;
use a2x::ast::constant::Constant;
use a2x::ast::infix::{Infix, InfixSignature};
use a2x::ast::operator::Operator;
use a2x::ast::target::{
    ConjunctiveSeq, DisjunctiveSeq, Match, MatchFunction, MatchOperation, Target,
};
use a2x::context::{Config, Context};
use a2x::errors::{ErrorKind, ParseError};
use a2x::xacml::xtarget::{match_to_xmatch, XMatch, XTarget};

const INTEGER: &str = "http://www.w3.org/2001/XMLSchema#integer";
const STRING: &str = "http://www.w3.org/2001/XMLSchema#string";
const SUBJECT: &str = "urn:oasis:names:tc:xacml:1.0:subject-category:access-subject";

fn ns(parts: &[&str]) -> Vec<String> {
    parts.iter().map(|s| s.to_string()).collect()
}

fn ctx() -> Context {
    let mut c = Context::new(Config::default()).unwrap();
    c.register_attribute(Attribute {
        id: "age".to_owned(),
        typedef: "integer".to_owned(),
        category: "subjectCat".to_owned(),
        uri: "urn:attr:age".to_owned(),
        ns: ns(&["main"]),
    })
    .unwrap();
    c.register_attribute(Attribute {
        id: "role".to_owned(),
        typedef: "string".to_owned(),
        category: "subjectCat".to_owned(),
        uri: "urn:attr:role".to_owned(),
        ns: ns(&["main"]),
    })
    .unwrap();
    c.register_infix(Infix {
        operator: "~~".to_owned(),
        allow_bags: false,
        commutative: false,
        signatures: vec![InfixSignature {
            uri: "urn:fn:near".to_owned(),
            first_arg: "integer".to_owned(),
            second_arg: "integer".to_owned(),
            output: "boolean".to_owned(),
        }],
        ns: ns(&["main"]),
        inverse: None,
    })
    .unwrap();
    c
}

fn op(attribute: &str, operator: &str, literal: Constant, reversed: bool) -> Match {
    Match::MatchOp(MatchOperation {
        attribute: ns(&[attribute]),
        operator: Operator {
            ns: vec![],
            operator: operator.to_owned(),
        },
        literal,
        reversed,
        issuer: None,
        mustbepresent: false,
    })
}

fn whole(s: &str) -> Constant {
    Constant::Integer(s.to_owned())
}

fn expected(matchid: &str, value: &str) -> XMatch {
    XMatch {
        matchid: matchid.to_owned(),
        value: value.to_owned(),
        value_type: INTEGER.to_owned(),
        designator_id: "urn:attr:age".to_owned(),
        designator_category: SUBJECT.to_owned(),
        designator_type: INTEGER.to_owned(),
        must_be_present: false,
        issuer: None,
    }
}

#[test]
fn in_order_the_operator_itself_is_used() {
    let c = ctx();
    let m = op("age", "<", whole("5"), false);
    assert_eq!(
        match_to_xmatch(&m, &ns(&["main"]), &c),
        Ok(expected(
            "urn:oasis:names:tc:xacml:1.0:function:integer-less-than",
            "5"
        ))
    );
}

#[test]
fn reversed_with_an_inverse_uses_the_inverse() {
    // `<` names `>` as its inverse
    let c = ctx();
    let m = op("age", "<", whole("5"), true);
    assert_eq!(
        match_to_xmatch(&m, &ns(&["main"]), &c),
        Ok(expected(
            "urn:oasis:names:tc:xacml:1.0:function:integer-greater-than",
            "5"
        ))
    );
}

#[test]
fn reversed_and_commutative_uses_the_operator_itself() {
    let c = ctx();
    let m = op("age", "==", whole("5"), true);
    assert_eq!(
        match_to_xmatch(&m, &ns(&["main"]), &c),
        Ok(expected("urn:oasis:names:tc:xacml:1.0:function:integer-equal", "5"))
    );
}

#[test]
fn reversed_without_inverse_is_refused() {
    let c = ctx();
    let m = op("age", "~~", whole("5"), true);
    assert_eq!(
        match_to_xmatch(&m, &ns(&["main"]), &c),
        Err(ParseError::ReversedInfixArgsNotCommutativeError)
    );
    // in order the same operator is fine
    let m = op("age", "~~", whole("5"), false);
    assert_eq!(
        match_to_xmatch(&m, &ns(&["main"]), &c),
        Ok(expected("urn:fn:near", "5"))
    );
}

#[test]
fn a_match_needs_a_signature_for_literal_and_attribute() {
    let c = ctx();
    let m = op("age", "<", Constant::String("x".to_owned()), false);
    assert_eq!(
        match_to_xmatch(&m, &ns(&["main"]), &c),
        Err(ParseError::AstConvertError)
    );
    let m = op("nope", "<", whole("1"), false);
    assert_eq!(
        match_to_xmatch(&m, &ns(&["main"]), &c).unwrap_err().kind(),
        ErrorKind::SymbolNotFound
    );
    let m = op("age", "<=>", whole("1"), false);
    assert_eq!(
        match_to_xmatch(&m, &ns(&["main"]), &c).unwrap_err().kind(),
        ErrorKind::SymbolNotFound
    );
}

#[test]
fn a_match_with_a_function() {
    let c = ctx();
    let m = Match::MatchFunc(MatchFunction {
        function_id: ns(&["stringEqual"]),
        literal: Constant::String("admin".to_owned()),
        attribute: ns(&["role"]),
        issuer: Some("idp".to_owned()),
        mustbepresent: true,
    });
    assert_eq!(
        match_to_xmatch(&m, &ns(&["main"]), &c),
        Ok(XMatch {
            matchid: "urn:oasis:names:tc:xacml:1.0:function:string-equal".to_owned(),
            value: "admin".to_owned(),
            value_type: STRING.to_owned(),
            designator_id: "urn:attr:role".to_owned(),
            designator_category: SUBJECT.to_owned(),
            designator_type: STRING.to_owned(),
            must_be_present: true,
            issuer: Some("idp".to_owned()),
        })
    );
}

#[test]
fn a_target_keeps_its_shape() {
    let c = ctx();
    let t = Target {
        clauses: vec![
            DisjunctiveSeq {
                statements: vec![
                    ConjunctiveSeq {
                        matches: vec![op("age", "<", whole("5"), false), op("age", ">", whole("1"), false)],
                    },
                    ConjunctiveSeq {
                        matches: vec![op("age", "==", whole("9"), false)],
                    },
                ],
            },
            DisjunctiveSeq { statements: vec![] },
        ],
        ns: ns(&["main"]),
    };
    let x = XTarget::try_from(&t, &c).unwrap();
    assert_eq!(x.anyofs.len(), 2);
    assert_eq!(x.anyofs[0].allofs.len(), 2);
    assert_eq!(x.anyofs[0].allofs[0].matches.len(), 2);
    assert_eq!(x.anyofs[0].allofs[1].matches.len(), 1);
    assert_eq!(x.anyofs[1].allofs.len(), 0);
    assert_eq!(
        x.anyofs[0].allofs[0].matches[1].matchid,
        "urn:oasis:names:tc:xacml:1.0:function:integer-greater-than"
    );
    // no target is the empty target
    assert_eq!(XTarget::try_from_option(&None, &c), Ok(XTarget { anyofs: vec![] }));
    // the first match that fails ends the conversion
    let bad = Target {
        clauses: vec![DisjunctiveSeq {
            statements: vec![ConjunctiveSeq {
                matches: vec![op("age", "<", whole("5"), false), op("age", "~~", whole("5"), true)],
            }],
        }],
        ns: ns(&["main"]),
    };
    assert_eq!(
        XTarget::try_from(&bad, &c),
        Err(ParseError::ReversedInfixArgsNotCommutativeError)
    );
}
