use a2x::ast::attribute::Attribute;
use a2x::ast::condition::{CondExpression, CondFunctionCall, Condition, FunctionReference};
use a2x::ast::constant::Constant;
use a2x::ast::designator::AttributeDesignator;
use a2x::ast::infix::{Infix, InfixSignature};
use a2x::ast::operator::Operator;
use a2x::context::{Config, Context, TypedLiteral};
use a2x::errors::{ErrorKind, ParseError, SrcLoc};
use a2x::xacml::xapply::XApply;
use a2x::xacml::xattr_designator::XAttrDesignator;
use a2x::xacml::xcondition::{
    check_infix_sign_compat, create_infix_apply, expr_to_xexpr, resolve_infix_signature,
    type_for_expr, FunctionTypeResolved, ResolvedAtomicName, XCondition,
};
use a2x::xacml::xexpression::XExpression;
use a2x::xacml::xfunction::XFunction;
use a2x::xacml::xprescription::XAttrValue;

const STRING: &str = "http://www.w3.org/2001/XMLSchema#string";
const INTEGER: &str = "http://www.w3.org/2001/XMLSchema#integer";
const BOOLEAN: &str = "http://www.w3.org/2001/XMLSchema#boolean";
const ANY_OF_ANY: &str = "urn:oasis:names:tc:xacml:3.0:function:any-of-any";

fn ns(parts: &[&str]) -> Vec<String> {
    parts.iter().map(|s| s.to_string()).collect()
}

fn ctx() -> Context {
    let mut c = Context::new(Config::default()).unwrap();
    c.register_attribute(Attribute {
        id: "role".to_owned(),
        typedef: "string".to_owned(),
        category: "subjectCat".to_owned(),
        uri: "urn:attr:role".to_owned(),
        ns: ns(&["main"]),
    })
    .unwrap();
    c.register_attribute(Attribute {
        id: "age".to_owned(),
        typedef: "integer".to_owned(),
        category: "subjectCat".to_owned(),
        uri: "urn:attr:age".to_owned(),
        ns: ns(&["main"]),
    })
    .unwrap();
    c
}

fn atomic(uri: &str) -> FunctionTypeResolved {
    FunctionTypeResolved::Atomic(ResolvedAtomicName { uri: uri.to_owned() })
}

fn bag(uri: &str) -> FunctionTypeResolved {
    FunctionTypeResolved::AtomicBag(ResolvedAtomicName { uri: uri.to_owned() })
}

fn lit_s(s: &str) -> CondExpression {
    CondExpression::Lit(Constant::String(s.to_owned()))
}

fn lit_i(s: &str) -> CondExpression {
    CondExpression::Lit(Constant::Integer(s.to_owned()))
}

fn attr(name: &str) -> CondExpression {
    CondExpression::Attr(AttributeDesignator {
        attribute: ns(&[name]),
        issuer: None,
        mustbepresent: false,
    })
}

fn infix(a: CondExpression, op: &str, b: CondExpression) -> CondExpression {
    CondExpression::Infix(
        Box::new(a),
        Operator {
            ns: vec![],
            operator: op.to_owned(),
        },
        Box::new(b),
    )
}

fn call(name: &str, args: Vec<CondExpression>) -> CondExpression {
    CondExpression::Fn(CondFunctionCall {
        identifier: ns(&[name]),
        arguments: args,
    })
}

fn value(type_uri: &str, v: &str) -> XExpression {
    XExpression::Value(XAttrValue {
        v: TypedLiteral {
            type_uri: type_uri.to_owned(),
            value: v.to_owned(),
        },
    })
}

fn designator(uri: &str, type_uri: &str) -> XExpression {
    XExpression::Attrib(XAttrDesignator {
        uri: uri.to_owned(),
        category: "urn:oasis:names:tc:xacml:1.0:subject-category:access-subject".to_owned(),
        type_uri: type_uri.to_owned(),
        must_be_present: false,
        issuer: None,
    })
}

fn condition(e: CondExpression) -> Condition {
    Condition {
        cond_expr: e,
        ns: ns(&["main"]),
        src_loc: SrcLoc::new("c.alfa", 7, 3),
    }
}

#[test]
fn types_of_literals() {
    let c = ctx();
    let here = ns(&["main"]);
    assert_eq!(type_for_expr(&lit_s("a"), &here, &c), Ok(atomic(STRING)));
    assert_eq!(type_for_expr(&lit_i("3"), &here, &c), Ok(atomic(INTEGER)));
    assert_eq!(
        type_for_expr(&CondExpression::Lit(Constant::Boolean(true)), &here, &c),
        Ok(atomic(BOOLEAN))
    );
    assert_eq!(
        type_for_expr(&CondExpression::Lit(Constant::Double("1.5".to_owned())), &here, &c),
        Ok(atomic("http://www.w3.org/2001/XMLSchema#double"))
    );
}

#[test]
fn an_attribute_is_always_a_bag() {
    let c = ctx();
    let here = ns(&["main"]);
    assert_eq!(type_for_expr(&attr("role"), &here, &c), Ok(bag(STRING)));
    assert_eq!(type_for_expr(&attr("age"), &here, &c), Ok(bag(INTEGER)));
    assert_eq!(
        type_for_expr(&attr("nope"), &here, &c).unwrap_err().kind(),
        ErrorKind::SymbolNotFound
    );
}

#[test]
fn a_call_has_the_output_type_of_the_function() {
    let c = ctx();
    let here = ns(&["main"]);
    assert_eq!(
        type_for_expr(&call("stringBag", vec![lit_s("a")]), &here, &c),
        Ok(bag(STRING))
    );
    assert_eq!(
        type_for_expr(&call("stringEqual", vec![lit_s("a"), lit_s("b")]), &here, &c),
        Ok(atomic(BOOLEAN))
    );
    assert_eq!(
        type_for_expr(&call("noSuchFunction", vec![]), &here, &c).unwrap_err().kind(),
        ErrorKind::SymbolNotFound
    );
}

#[test]
fn what_has_no_type() {
    let c = ctx();
    let here = ns(&["main"]);
    assert_eq!(
        type_for_expr(&CondExpression::Empty, &here, &c),
        Err(ParseError::AstConvertError)
    );
    let fr = CondExpression::FnRef(FunctionReference {
        identifier: ns(&["stringEqual"]),
    });
    assert_eq!(type_for_expr(&fr, &here, &c), Err(ParseError::AstConvertError));
    assert_eq!(
        type_for_expr(&CondExpression::Lit(Constant::Undefined), &here, &c),
        Err(ParseError::AstConvertError)
    );
}

#[test]
fn an_infix_takes_the_output_of_the_signature_that_fits() {
    let c = ctx();
    let here = ns(&["main"]);
    assert_eq!(
        type_for_expr(&infix(lit_i("1"), "+", lit_i("2")), &here, &c),
        Ok(atomic(INTEGER))
    );
    assert_eq!(
        type_for_expr(&infix(lit_i("1"), "<", lit_i("2")), &here, &c),
        Ok(atomic(BOOLEAN))
    );
    assert_eq!(
        type_for_expr(&infix(lit_s("a"), "+", lit_i("2")), &here, &c),
        Err(ParseError::InfixNoMatchingSignature)
    );
}

#[test]
fn signatures_are_tried_in_order() {
    let c = ctx();
    let lt = c.lookup_infix("<", &ns(&["main"])).unwrap();
    let sig = resolve_infix_signature(lt, &atomic(INTEGER), &atomic(INTEGER), &c).unwrap();
    assert_eq!(sig.uri, "urn:oasis:names:tc:xacml:1.0:function:integer-less-than");
    let sig = resolve_infix_signature(lt, &atomic(STRING), &bag(STRING), &c).unwrap();
    assert_eq!(sig.uri, "urn:oasis:names:tc:xacml:1.0:function:string-less-than");
    assert_eq!(
        resolve_infix_signature(lt, &atomic(INTEGER), &atomic(STRING), &c),
        Err(ParseError::InfixNoMatchingSignature)
    );
    assert_eq!(
        resolve_infix_signature(lt, &FunctionTypeResolved::AnyAtomic, &atomic(STRING), &c),
        Err(ParseError::InfixNoMatchingSignature)
    );
}

#[test]
fn a_signature_fits_the_base_types() {
    assert!(check_infix_sign_compat(&atomic(STRING), &atomic(STRING), STRING, STRING));
    assert!(check_infix_sign_compat(&bag(STRING), &atomic(INTEGER), STRING, INTEGER));
    assert!(check_infix_sign_compat(&atomic(STRING), &bag(INTEGER), STRING, INTEGER));
    assert!(!check_infix_sign_compat(&atomic(STRING), &atomic(STRING), STRING, INTEGER));
    assert!(!check_infix_sign_compat(&bag(INTEGER), &atomic(STRING), STRING, STRING));
    assert!(!check_infix_sign_compat(
        &FunctionTypeResolved::AnyAtomicBag,
        &atomic(STRING),
        STRING,
        STRING
    ));
}

#[test]
fn bag_or_not() {
    assert!(!atomic(STRING).is_bag());
    assert!(atomic(STRING).is_atomic());
    assert!(bag(STRING).is_bag());
    assert!(FunctionTypeResolved::AnyAtomicBag.is_bag());
    assert!(FunctionTypeResolved::AnyAtomic.is_atomic());
    assert_eq!(bag(STRING).to_string(), format!("fn arg type: Bag[{}]", STRING));
}

#[test]
fn scalars_are_applied_directly() {
    let c = ctx();
    let x = expr_to_xexpr(&infix(lit_s("a"), "==", lit_s("b")), &ns(&["main"]), &c).unwrap();
    assert_eq!(
        x,
        XExpression::Apply(XApply {
            function_uri: "urn:oasis:names:tc:xacml:1.0:function:string-equal".to_owned(),
            arguments: vec![value(STRING, "a"), value(STRING, "b")],
            return_type: atomic(BOOLEAN),
        })
    );
}

#[test]
fn a_bag_operand_is_lifted_through_any_of_any() {
    // `==` allows bags and gives a boolean: with the attribute, a bag, as
    // one operand, any-of-any wraps the function and both operands, in
    // their order
    let c = ctx();
    let x = expr_to_xexpr(&infix(attr("role"), "==", lit_s("admin")), &ns(&["main"]), &c).unwrap();
    assert_eq!(
        x,
        XExpression::Apply(XApply {
            function_uri: ANY_OF_ANY.to_owned(),
            arguments: vec![
                XExpression::Function(XFunction {
                    function_uri: "urn:oasis:names:tc:xacml:1.0:function:string-equal".to_owned()
                }),
                designator("urn:attr:role", STRING),
                value(STRING, "admin"),
            ],
            return_type: atomic(BOOLEAN),
        })
    );
    let x = expr_to_xexpr(&infix(lit_i("5"), "<", attr("age")), &ns(&["main"]), &c).unwrap();
    match x {
        XExpression::Apply(a) => {
            assert_eq!(a.function_uri, ANY_OF_ANY);
            assert_eq!(a.arguments.len(), 3);
            assert_eq!(
                a.arguments[0],
                XExpression::Function(XFunction {
                    function_uri: "urn:oasis:names:tc:xacml:1.0:function:integer-less-than"
                        .to_owned()
                })
            );
            assert_eq!(a.arguments[1], value(INTEGER, "5"));
            assert_eq!(a.arguments[2], designator("urn:attr:age", INTEGER));
        }
        other => panic!("expected an application, got {:?}", other),
    }
}

#[test]
fn a_bag_operand_needs_an_operator_that_allows_bags() {
    // `+` does not allow bags
    let c = ctx();
    assert_eq!(
        expr_to_xexpr(&infix(attr("age"), "+", lit_i("1")), &ns(&["main"]), &c),
        Err(ParseError::InfixBagsDisallowed)
    );
}

#[test]
fn a_bag_operand_needs_a_boolean_result() {
    let mut c = ctx();
    c.register_infix(Infix {
        operator: "+++".to_owned(),
        allow_bags: true,
        commutative: false,
        signatures: vec![InfixSignature {
            uri: "urn:fn:concat".to_owned(),
            first_arg: "string".to_owned(),
            second_arg: "string".to_owned(),
            output: "string".to_owned(),
        }],
        ns: ns(&["main"]),
        inverse: None,
    })
    .unwrap();
    assert_eq!(
        expr_to_xexpr(&infix(attr("role"), "+++", lit_s("x")), &ns(&["main"]), &c),
        Err(ParseError::InfixBagsBooleanRequired)
    );
    // without a bag the same operator is applied directly
    let x = expr_to_xexpr(&infix(lit_s("a"), "+++", lit_s("x")), &ns(&["main"]), &c).unwrap();
    match x {
        XExpression::Apply(a) => assert_eq!(a.function_uri, "urn:fn:concat"),
        other => panic!("expected an application, got {:?}", other),
    }
}

#[test]
fn create_infix_apply_keeps_the_operands_in_order() {
    let c = ctx();
    let eq = c.lookup_infix("==", &ns(&["main"])).unwrap();
    let sig = resolve_infix_signature(eq, &bag(STRING), &atomic(STRING), &c).unwrap();
    let args = vec![designator("urn:attr:role", STRING), value(STRING, "x")];
    let x = create_infix_apply(sig, args, &bag(STRING), &atomic(STRING), eq, &c).unwrap();
    match x {
        XExpression::Apply(a) => {
            assert_eq!(a.function_uri, ANY_OF_ANY);
            assert_eq!(a.arguments[1], designator("urn:attr:role", STRING));
            assert_eq!(a.arguments[2], value(STRING, "x"));
        }
        other => panic!("expected an application, got {:?}", other),
    }
}

#[test]
fn calls_and_references() {
    let c = ctx();
    let here = ns(&["main"]);
    let x = expr_to_xexpr(&call("stringBag", vec![lit_s("a"), lit_s("b")]), &here, &c).unwrap();
    assert_eq!(
        x,
        XExpression::Apply(XApply {
            function_uri: "urn:oasis:names:tc:xacml:1.0:function:string-bag".to_owned(),
            arguments: vec![value(STRING, "a"), value(STRING, "b")],
            return_type: bag(STRING),
        })
    );
    let fr = CondExpression::FnRef(FunctionReference {
        identifier: ns(&["stringEqual"]),
    });
    assert_eq!(
        expr_to_xexpr(&fr, &here, &c),
        Ok(XExpression::Function(XFunction {
            function_uri: "urn:oasis:names:tc:xacml:1.0:function:string-equal".to_owned()
        }))
    );
    assert_eq!(
        expr_to_xexpr(&CondExpression::Empty, &here, &c),
        Err(ParseError::AstConvertError)
    );
    // the first argument that fails gives the error
    let bad = call("stringBag", vec![lit_s("a"), attr("nope"), CondExpression::Empty]);
    assert_eq!(
        expr_to_xexpr(&bad, &here, &c).unwrap_err().kind(),
        ErrorKind::SymbolNotFound
    );
}

#[test]
fn a_condition_is_one_boolean() {
    let c = ctx();
    // a bag of strings: fine as an operand, no condition
    let cond = condition(call("stringBag", vec![lit_s("a")]));
    let err = XCondition::try_from(&cond, &c).unwrap_err();
    assert_eq!(err.kind(), ErrorKind::ConditionBooleanRequired);
    assert_eq!(err.location(), Some(&SrcLoc::new("c.alfa", 7, 3)));
    // an integer: fine as an operand, no condition
    let cond = condition(lit_i("3"));
    assert_eq!(
        XCondition::try_from(&cond, &c).unwrap_err().kind(),
        ErrorKind::ConditionBooleanRequired
    );
    // an attribute is a bag, even of booleans
    let cond = condition(attr("role"));
    assert_eq!(
        XCondition::try_from(&cond, &c).unwrap_err().kind(),
        ErrorKind::ConditionBooleanRequired
    );
    // what has no type is no condition either
    let cond = condition(call("noSuchFunction", vec![]));
    assert_eq!(
        XCondition::try_from(&cond, &c).unwrap_err().kind(),
        ErrorKind::ConditionBooleanRequired
    );
    // a boolean is
    let cond = condition(CondExpression::Lit(Constant::Boolean(true)));
    assert_eq!(
        XCondition::try_from(&cond, &c).unwrap().expr,
        value(BOOLEAN, "true")
    );
    let cond = condition(infix(attr("role"), "==", lit_s("admin")));
    assert!(XCondition::try_from(&cond, &c).is_ok());
    // a boolean type whose operands can not be lifted fails in the conversion
    let cond = condition(infix(infix(attr("age"), "+", lit_i("1")), "<", lit_i("3")));
    assert_eq!(
        XCondition::try_from(&cond, &c),
        Err(ParseError::InfixBagsDisallowed)
    );
}
