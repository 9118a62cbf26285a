use a2x::ast::condition::{
    expr_bp, operator_bp, CondAtomUnparsed, CondExpression, CondExpressionUnparsed,
    CondFunctionCall, CondFunctionCallUnparsed, CondItemUnparsed, Condition, ConditionUnparsed,
    FunctionReference,
};
use a2x::ast::constant::Constant;
use a2x::ast::designator::AttributeDesignator;
use a2x::ast::operator::Operator;
use a2x::errors::{ParseError, SrcLoc};

fn num(s: &str) -> CondItemUnparsed {
    CondItemUnparsed::Atom(CondAtomUnparsed::Lit(Constant::Integer(s.to_owned())))
}

fn op(s: &str) -> CondItemUnparsed {
    CondItemUnparsed::Op(operator(s))
}

fn operator(s: &str) -> Operator {
    Operator {
        ns: vec![],
        operator: s.to_owned(),
    }
}

fn lit(s: &str) -> CondExpression {
    CondExpression::Lit(Constant::Integer(s.to_owned()))
}

fn infix(a: CondExpression, o: &str, b: CondExpression) -> CondExpression {
    CondExpression::Infix(Box::new(a), operator(o), Box::new(b))
}

fn parse(items: Vec<CondItemUnparsed>) -> Result<CondExpression, ParseError> {
    CondExpression::try_from(&CondExpressionUnparsed { items })
}

#[test]
fn binding_powers() {
    assert_eq!(operator_bp("||"), (12, 11));
    assert_eq!(operator_bp("&&"), (10, 9));
    assert_eq!(operator_bp("=="), (7, 8));
    assert_eq!(operator_bp("<="), (7, 8));
    assert_eq!(operator_bp(">"), (7, 8));
    assert_eq!(operator_bp("$x"), (7, 8));
    assert_eq!(operator_bp("@"), (6, 5));
    assert_eq!(operator_bp("^^"), (6, 5));
    assert_eq!(operator_bp("+"), (3, 4));
    assert_eq!(operator_bp("-"), (3, 4));
    assert_eq!(operator_bp("*"), (1, 2));
    assert_eq!(operator_bp("/"), (1, 2));
    assert_eq!(operator_bp("%"), (1, 2));
    assert_eq!(operator_bp("!"), (0, 0));
    assert_eq!(operator_bp(""), (0, 0));
}

#[test]
fn one_operand() {
    assert_eq!(parse(vec![num("3")]), Ok(lit("3")));
}

#[test]
fn operators_of_one_kind_group_by_their_side() {
    // `+` groups to the left
    assert_eq!(
        parse(vec![num("1"), op("+"), num("2"), op("+"), num("3")]),
        Ok(infix(infix(lit("1"), "+", lit("2")), "+", lit("3")))
    );
    // `|` groups to the right
    assert_eq!(
        parse(vec![num("1"), op("|"), num("2"), op("|"), num("3")]),
        Ok(infix(lit("1"), "|", infix(lit("2"), "|", lit("3"))))
    );
}

#[test]
fn the_stronger_operator_takes_its_operands_first() {
    // `|` binds more strongly than `+`
    assert_eq!(
        parse(vec![num("1"), op("+"), num("2"), op("|"), num("3")]),
        Ok(infix(lit("1"), "+", infix(lit("2"), "|", lit("3"))))
    );
    assert_eq!(
        parse(vec![num("1"), op("|"), num("2"), op("+"), num("3")]),
        Ok(infix(infix(lit("1"), "|", lit("2")), "+", lit("3")))
    );
}

#[test]
fn what_is_not_well_formed() {
    assert_eq!(parse(vec![]), Err(ParseError::AstConvertError));
    assert_eq!(parse(vec![op("+")]), Err(ParseError::AstConvertError));
    assert_eq!(parse(vec![num("1"), num("2")]), Err(ParseError::AstConvertError));
    assert_eq!(parse(vec![num("1"), op("+")]), Err(ParseError::AstConvertError));
    assert_eq!(
        parse(vec![num("1"), op("+"), op("+"), num("2")]),
        Err(ParseError::AstConvertError)
    );
    assert_eq!(
        parse(vec![num("1"), CondItemUnparsed::Empty]),
        Err(ParseError::AstConvertError)
    );
    assert_eq!(parse(vec![CondItemUnparsed::Empty]), Err(ParseError::AstConvertError));
}

#[test]
fn expr_bp_stops_at_a_weaker_operator() {
    let items = vec![num("1"), op("|"), num("2"), op("+"), num("3")];
    // from the third item on, with the right binding power of `|`
    assert_eq!(expr_bp(&items, 2, 11), Ok((lit("2"), 3)));
    assert_eq!(
        expr_bp(&items, 0, 0),
        Ok((infix(infix(lit("1"), "|", lit("2")), "+", lit("3")), 5))
    );
    assert_eq!(expr_bp(&items, 5, 0), Err(ParseError::AstConvertError));
}

#[test]
fn operands_of_every_kind() {
    let inner = CondExpressionUnparsed {
        items: vec![num("1"), op("+"), num("2")],
    };
    let call = CondFunctionCallUnparsed {
        identifier: vec!["f".to_owned()],
        arguments: vec![
            CondExpressionUnparsed {
                items: vec![num("7"), op("*"), num("8")],
            },
            CondExpressionUnparsed { items: vec![num("9")] },
        ],
    };
    let designator = AttributeDesignator {
        attribute: vec!["a".to_owned(), "b".to_owned()],
        issuer: Some("i".to_owned()),
        mustbepresent: true,
    };
    let reference = FunctionReference {
        identifier: vec!["g".to_owned()],
    };
    let items = vec![
        CondItemUnparsed::Atom(CondAtomUnparsed::Expr(inner)),
        op("=="),
        CondItemUnparsed::Atom(CondAtomUnparsed::Fn(call)),
        op("&&"),
        CondItemUnparsed::Atom(CondAtomUnparsed::Attr(designator.clone())),
        op("&&"),
        CondItemUnparsed::Atom(CondAtomUnparsed::FnRef(reference.clone())),
        op("&&"),
        CondItemUnparsed::Atom(CondAtomUnparsed::Empty),
    ];
    let expected_call = CondExpression::Fn(CondFunctionCall {
        identifier: vec!["f".to_owned()],
        arguments: vec![infix(lit("7"), "*", lit("8")), lit("9")],
    });
    let got = parse(items).unwrap();
    // `==` binds less strongly than `&&`, and `&&` groups to the right
    assert_eq!(
        got,
        infix(
            infix(lit("1"), "+", lit("2")),
            "==",
            infix(
                expected_call.clone(),
                "&&",
                infix(
                    CondExpression::Attr(designator),
                    "&&",
                    infix(CondExpression::FnRef(reference), "&&", CondExpression::Empty)
                )
            )
        )
    );
    assert_eq!(got.clone(), got);
    // an argument that is not well formed spoils the call
    let bad = CondFunctionCallUnparsed {
        identifier: vec!["f".to_owned()],
        arguments: vec![CondExpressionUnparsed { items: vec![op("+")] }],
    };
    assert_eq!(CondFunctionCall::try_from(&bad), Err(ParseError::AstConvertError));
    assert_eq!(
        parse(vec![CondItemUnparsed::Atom(CondAtomUnparsed::Fn(bad))]),
        Err(ParseError::AstConvertError)
    );
}

#[test]
fn a_condition_keeps_its_namespace_and_place() {
    let c = ConditionUnparsed {
        cond_expr: CondExpressionUnparsed {
            items: vec![num("1"), op("<"), num("2")],
        },
        ns: vec!["main".to_owned()],
        src_loc: SrcLoc::new("f.alfa", 4, 5),
    };
    assert_eq!(
        Condition::try_from(&c),
        Ok(Condition {
            cond_expr: infix(lit("1"), "<", lit("2")),
            ns: vec!["main".to_owned()],
            src_loc: SrcLoc::new("f.alfa", 4, 5),
        })
    );
}

#[test]
fn names_of_calls_and_references() {
    let call = CondFunctionCall {
        identifier: vec!["a".to_owned(), "f".to_owned()],
        arguments: vec![],
    };
    assert_eq!(call.fully_qualified_name(), "a.f");
    let reference = FunctionReference {
        identifier: vec!["g".to_owned()],
    };
    assert_eq!(reference.fully_qualified_name(), "g");
    let designator = AttributeDesignator {
        attribute: vec!["a".to_owned(), "b".to_owned()],
        issuer: Some("i".to_owned()),
        mustbepresent: true,
    };
    assert_eq!(designator.fully_qualified_name(), "a.b");
    assert_eq!(designator.to_string(), "a.b[mustbepresent issuer=\"i\"]");
    let plain = AttributeDesignator {
        attribute: vec!["a".to_owned()],
        issuer: None,
        mustbepresent: false,
    };
    assert_eq!(plain.to_string(), "a");
}
